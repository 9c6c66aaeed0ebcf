//! Options for setting up a deployment to try the program on.

use vstd::prelude::*;

verus! {

/// How a deployment is set up.
#[derive(Clone, Copy, Debug, PartialEq, Eq)]
pub struct SetupOptions {
    /// The deposit, in lamports, that the deployment asks of every request.
    pub deposit: u64,
}

impl Default for SetupOptions {
    /// A deployment that asks for a deposit of one lamport.
    fn default() -> (options: SetupOptions)
        ensures
            options.deposit == 1,
    {
        SetupOptions { deposit: 1 }
    }
}

} // verus!
