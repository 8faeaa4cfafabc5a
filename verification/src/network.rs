//! The networks a node can join.

use vstd::prelude::*;

verus! {

#[derive(Clone, Copy, Debug, PartialEq, Eq, Structural)]
pub enum Network {
    Mainnet,
    Testnet10,
    Testnet12,
}

impl Network {
    /// The name of the network as it is written in settings and logs.
    pub open spec fn name(self) -> Seq<char> {
        match self {
            Network::Mainnet => "mainnet"@,
            Network::Testnet10 => "testnet-10"@,
            Network::Testnet12 => "testnet-12"@,
        }
    }

    pub fn as_str(&self) -> (r: &'static str)
        ensures
            r@ == self.name(),
    {
        match self {
            Network::Mainnet => "mainnet",
            Network::Testnet10 => "testnet-10",
            Network::Testnet12 => "testnet-12",
        }
    }

    /// Whether the network is one of the test networks.
    pub open spec fn is_testnet(self) -> bool {
        self != Network::Mainnet
    }

    pub fn is_test(&self) -> (b: bool)
        ensures
            b == self.is_testnet(),
    {
        match self {
            Network::Mainnet => false,
            Network::Testnet10 => true,
            Network::Testnet12 => true,
        }
    }
}

impl Default for Network {
    fn default() -> (r: Self)
        ensures
            r == Network::Mainnet,
    {
        Network::Mainnet
    }
}

} // verus!
