use vstd::prelude::*;

verus! {

/// The tabs of the Ethereum page, in display order.
#[derive(Debug, Clone, Copy, PartialEq, Eq, Structural)]
pub enum EthereumPageTabEnum {
    Status,
    Market,
    Scan,
    Charts,
    Tools,
}

impl EthereumPageTabEnum {
    pub open spec fn spec_index(self) -> usize {
        match self {
            EthereumPageTabEnum::Status => 0,
            EthereumPageTabEnum::Market => 1,
            EthereumPageTabEnum::Scan => 2,
            EthereumPageTabEnum::Charts => 3,
            EthereumPageTabEnum::Tools => 4,
        }
    }

    /// Position of the tab in the tab bar.
    pub fn index(&self) -> (r: usize)
        ensures
            r == self.spec_index(),
    {
        match self {
            EthereumPageTabEnum::Status => 0,
            EthereumPageTabEnum::Market => 1,
            EthereumPageTabEnum::Scan => 2,
            EthereumPageTabEnum::Charts => 3,
            EthereumPageTabEnum::Tools => 4,
        }
    }

    /// The tab at position `i` of the tab bar, if there is one.
    pub fn from_index(i: usize) -> (r: Option<EthereumPageTabEnum>)
        ensures
            r matches Some(t) ==> t.spec_index() == i,
            r is Some <==> i < 5,
    {
        if i == 0 {
            Some(EthereumPageTabEnum::Status)
        } else if i == 1 {
            Some(EthereumPageTabEnum::Market)
        } else if i == 2 {
            Some(EthereumPageTabEnum::Scan)
        } else if i == 3 {
            Some(EthereumPageTabEnum::Charts)
        } else if i == 4 {
            Some(EthereumPageTabEnum::Tools)
        } else {
            None
        }
    }
}

/// Page data of the Ethereum page; it holds nothing yet.
#[derive(Debug, Clone, Copy, PartialEq, Eq, Structural)]
pub struct EthereumPageData {}

impl Default for EthereumPageData {
    fn default() -> (r: Self)
        ensures
            r == (EthereumPageData {}),
    {
        EthereumPageData {}
    }
}

/// Marker of the Ethereum page renderer.
pub struct EthereumPageUI;

/// Marker of the Solana page renderer.
pub struct Solana;

/// Marker of the Bsc page renderer.
pub struct Bsc;

/// Marker of the Orca page renderer.
pub struct OrcaPageUI;

/// Marker of the welcome page renderer.
pub struct Welcome;

} // verus!
