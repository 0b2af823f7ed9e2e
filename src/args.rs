use vstd::prelude::*;

verus! {

/// The command line: the address to report on and the chain's name.
#[derive(Debug)]
pub struct CommandlineArgs {
    /// Wallet or contract address whose native-token flow is computed.
    pub address: String,
    /// Which chain to work with: `bsc`, `ethereum` or `polygon`, in any case.
    pub chain: String,
}

} // verus!
