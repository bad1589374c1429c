use vstd::prelude::*;

verus! {

/// The blockchain networks that the dashboard can show, in display order.
#[derive(Debug, Clone, Copy, PartialEq, Eq, Structural)]
pub enum NetworkEnum {
    Ethereum,
    Solana,
    Bsc,
    Base,
    Aptos,
    Sui,
    HyperEvm,
}

impl NetworkEnum {
    pub open spec fn spec_name(self) -> Seq<char> {
        match self {
            NetworkEnum::Ethereum => "Ethereum"@,
            NetworkEnum::Solana => "Solana"@,
            NetworkEnum::Bsc => "Bsc"@,
            NetworkEnum::Base => "Base"@,
            NetworkEnum::Aptos => "Aptos"@,
            NetworkEnum::Sui => "Sui"@,
            NetworkEnum::HyperEvm => "HyperEvm"@,
        }
    }

    /// The display name of the network.
    pub fn as_str(&self) -> (r: &'static str)
        ensures
            r@ == self.spec_name(),
    {
        match self {
            NetworkEnum::Ethereum => "Ethereum",
            NetworkEnum::Solana => "Solana",
            NetworkEnum::Bsc => "Bsc",
            NetworkEnum::Base => "Base",
            NetworkEnum::Aptos => "Aptos",
            NetworkEnum::Sui => "Sui",
            NetworkEnum::HyperEvm => "HyperEvm",
        }
    }

    /// Every network, in display order.
    pub fn all_vec() -> (r: Vec<NetworkEnum>)
        ensures
            r@ == seq![
                NetworkEnum::Ethereum,
                NetworkEnum::Solana,
                NetworkEnum::Bsc,
                NetworkEnum::Base,
                NetworkEnum::Aptos,
                NetworkEnum::Sui,
                NetworkEnum::HyperEvm,
            ],
    {
        let mut r: Vec<NetworkEnum> = Vec::new();
        r.push(NetworkEnum::Ethereum);
        r.push(NetworkEnum::Solana);
        r.push(NetworkEnum::Bsc);
        r.push(NetworkEnum::Base);
        r.push(NetworkEnum::Aptos);
        r.push(NetworkEnum::Sui);
        r.push(NetworkEnum::HyperEvm);
        assert(r@ =~= seq![
            NetworkEnum::Ethereum,
            NetworkEnum::Solana,
            NetworkEnum::Bsc,
            NetworkEnum::Base,
            NetworkEnum::Aptos,
            NetworkEnum::Sui,
            NetworkEnum::HyperEvm,
        ]);
        r
    }
}

/// A supported network as listed in the menu.
#[derive(Debug, Clone, Copy)]
pub struct Network<'a> {
    pub name: &'a str,
}

} // verus!
