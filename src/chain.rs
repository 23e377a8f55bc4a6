//! The closed set of chains the proxy serves, and their upstream routing.
use vstd::prelude::*;

verus! {

/// A blockchain network target.
#[derive(PartialEq, Eq, Structural, Clone, Copy, Debug)]
pub enum Chain {
    Sepolia,
    Optimism,
}

/// The upstream provider subdomain of a chain.
pub open spec fn subdomain(c: Chain) -> Seq<char> {
    match c {
        Chain::Sepolia => "eth-sepolia"@,
        Chain::Optimism => "opt-mainnet"@,
    }
}

/// The inbound route path that selects a chain.
pub open spec fn route_of(c: Chain) -> Seq<char> {
    match c {
        Chain::Sepolia => "/sepolia"@,
        Chain::Optimism => "/optimism"@,
    }
}

/// The chain selected by an inbound route path, if any.
pub open spec fn chain_of_route(path: Seq<char>) -> Option<Chain> {
    if path == route_of(Chain::Sepolia) {
        Some(Chain::Sepolia)
    } else if path == route_of(Chain::Optimism) {
        Some(Chain::Optimism)
    } else {
        None
    }
}

impl Chain {
    pub fn api_subdomain(&self) -> (r: &'static str)
        ensures
            r@ == subdomain(*self),
    {
        match self {
            Chain::Sepolia => "eth-sepolia",
            Chain::Optimism => "opt-mainnet",
        }
    }

    pub fn route(&self) -> (r: &'static str)
        ensures
            r@ == route_of(*self),
    {
        match self {
            Chain::Sepolia => "/sepolia",
            Chain::Optimism => "/optimism",
        }
    }

    /// Selects the chain served under an inbound route path.
    pub fn from_route(path: &str) -> (r: Option<Chain>)
        ensures
            r == chain_of_route(path@),
    {
        let p = String::from_str(path);
        if p == String::from_str("/sepolia") {
            Some(Chain::Sepolia)
        } else if p == String::from_str("/optimism") {
            Some(Chain::Optimism)
        } else {
            None
        }
    }
}

} // verus!
