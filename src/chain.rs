use evmscan::environ::Context;
use evmscan::prelude::ChainType;
use vstd::prelude::*;

verus! {

/// The chains whose explorer API is supported.
#[derive(Clone, Copy, PartialEq, Eq, Structural, Debug)]
pub enum Chain {
    Bsc,
    Ethereum,
    Polygon,
}

/// The base URL of a chain's explorer API.
pub open spec fn api_prefix(chain: Chain) -> Seq<char> {
    match chain {
        Chain::Bsc => "https://api.bscscan.com"@,
        Chain::Ethereum => "https://api.etherscan.io"@,
        Chain::Polygon => "https://api.polygonscan.com"@,
    }
}

/// The symbol of a chain's native token.
pub open spec fn native_token(chain: Chain) -> Seq<char> {
    match chain {
        Chain::Bsc => "BNB"@,
        Chain::Ethereum => "ETH"@,
        Chain::Polygon => "MATIC"@,
    }
}

/// The environment variable that holds the API key for a chain.
pub open spec fn api_key_var(chain: Chain) -> Seq<char> {
    match chain {
        Chain::Bsc => "INOUTFLOW_BSCSCAN_APIKEY"@,
        Chain::Ethereum => "INOUTFLOW_ETHERSCAN_APIKEY"@,
        Chain::Polygon => "INOUTFLOW_POLYGONSCAN_APIKEY"@,
    }
}

/// The chain a lowercase name stands for.
pub open spec fn chain_named(name: Seq<char>) -> Option<Chain> {
    if name == "bsc"@ {
        Some(Chain::Bsc)
    } else if name == "ethereum"@ {
        Some(Chain::Ethereum)
    } else if name == "polygon"@ {
        Some(Chain::Polygon)
    } else {
        None
    }
}

/// What `str::to_lowercase` makes of a string.
pub uninterp spec fn lower_of(s: Seq<char>) -> Seq<char>;

/// Relies on `str::to_lowercase`: its result depends on the characters alone.
#[verifier::external_body]
pub(crate) fn to_lowercase(s: &str) -> (r: String)
    ensures
        r@ == lower_of(s@),
{
    s.to_lowercase()
}

/// Relies on evmscan's `Context::get_prefix_url`: the API base URL it uses
/// for each chain.
#[verifier::external_body]
pub(crate) fn prefix_url(chain: Chain) -> (r: &'static str)
    ensures
        r@ == api_prefix(chain),
{
    Context::get_prefix_url(
        match chain {
            Chain::Bsc => ChainType::BSC,
            Chain::Ethereum => ChainType::Ethereum,
            Chain::Polygon => ChainType::Polygon,
        },
    )
}

/// The symbol of the chain's native token.
pub fn get_native_token_name(chain: Chain) -> (r: String)
    ensures
        r@ == native_token(chain),
{
    match chain {
        Chain::Bsc => String::from_str("BNB"),
        Chain::Ethereum => String::from_str("ETH"),
        Chain::Polygon => String::from_str("MATIC"),
    }
}

/// The name of the environment variable that holds the chain's API key.
pub fn api_key_variable(chain: Chain) -> (r: &'static str)
    ensures
        r@ == api_key_var(chain),
{
    match chain {
        Chain::Bsc => "INOUTFLOW_BSCSCAN_APIKEY",
        Chain::Ethereum => "INOUTFLOW_ETHERSCAN_APIKEY",
        Chain::Polygon => "INOUTFLOW_POLYGONSCAN_APIKEY",
    }
}

/// The chain a name already in lowercase stands for.
pub fn chain_from_lowercase(name: &str) -> (r: Option<Chain>)
    ensures
        r == chain_named(name@),
{
    let name = String::from_str(name);
    if name == String::from_str("bsc") {
        Some(Chain::Bsc)
    } else if name == String::from_str("ethereum") {
        Some(Chain::Ethereum)
    } else if name == String::from_str("polygon") {
        Some(Chain::Polygon)
    } else {
        None
    }
}

/// The chain a name stands for, in any letter case.
pub fn chain_from_name(name: &str) -> (r: Option<Chain>)
    ensures
        r == chain_named(lower_of(name@)),
{
    let lowered = to_lowercase(name);
    chain_from_lowercase(lowered.as_str())
}

} // verus!
