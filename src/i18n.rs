use vstd::prelude::*;

verus! {

/// The interface languages.
#[allow(non_camel_case_types)]
#[derive(Debug, Clone, Copy, PartialEq, Eq, Structural)]
pub enum I18N {
    EN,
    zhCN,
}

/// The text of `key` in `lang`, from the fixed string table; a key that the
/// table lacks gives a fixed notice.
pub open spec fn translation(lang: I18N, key: Seq<char>) -> Seq<char> {
    if key == "success"@ {
        match lang {
            I18N::EN => "Success"@,
            I18N::zhCN => "成功"@,
        }
    } else if key == "fail"@ {
        match lang {
            I18N::EN => "Fail"@,
            I18N::zhCN => "失败"@,
        }
    } else if key == "awaid-confirmed"@ {
        match lang {
            I18N::EN => "awaid confirmed"@,
            I18N::zhCN => "待确认"@,
        }
    } else {
        "key does not exist."@
    }
}

impl I18N {
    /// Looks `k` up in the string table for `i18n`.
    pub fn get(i18n: I18N, k: &str) -> (r: String)
        ensures
            r@ == translation(i18n, k@),
    {
        let key = k.to_owned();
        if key == "success".to_owned() {
            match i18n {
                I18N::EN => "Success".to_owned(),
                I18N::zhCN => "成功".to_owned(),
            }
        } else if key == "fail".to_owned() {
            match i18n {
                I18N::EN => "Fail".to_owned(),
                I18N::zhCN => "失败".to_owned(),
            }
        } else if key == "awaid-confirmed".to_owned() {
            match i18n {
                I18N::EN => "awaid confirmed".to_owned(),
                I18N::zhCN => "待确认".to_owned(),
            }
        } else {
            "key does not exist.".to_owned()
        }
    }
}

/// The state of a transaction, kept as a fixed value and turned into text
/// only when it is shown.
#[derive(Debug, Clone, Copy, PartialEq, Eq, Structural)]
pub enum TxStatus {
    Success,
    AwaitingConfirmation,
    Fail,
}

impl TxStatus {
    pub open spec fn spec_key(self) -> Seq<char> {
        match self {
            TxStatus::Success => "success"@,
            TxStatus::AwaitingConfirmation => "awaid-confirmed"@,
            TxStatus::Fail => "fail"@,
        }
    }

    /// The key of the status in the string table.
    pub fn key(&self) -> (r: &'static str)
        ensures
            r@ == self.spec_key(),
    {
        match self {
            TxStatus::Success => "success",
            TxStatus::AwaitingConfirmation => "awaid-confirmed",
            TxStatus::Fail => "fail",
        }
    }

    /// The status as text in `lang`.
    pub fn label(&self, lang: I18N) -> (r: String)
        ensures
            r@ == translation(lang, self.spec_key()),
    {
        I18N::get(lang, self.key())
    }
}

} // verus!
