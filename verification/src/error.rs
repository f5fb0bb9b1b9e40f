use vstd::prelude::*;

verus! {

/// An error surfaced from the storage layer, in the shape the host reports
/// it: a record that does not exist.
#[derive(Debug)]
pub enum StdError {
    /// No record of the named kind exists in storage.
    NotFound { kind: String },
}

/// Every way an operation of this module can fail.
#[derive(Debug)]
pub enum ContractError {
    /// A storage or serialization error, passed through verbatim.
    Std(StdError),
    /// The caller is not the configured owner.
    Unauthorized {},
    /// A withdrawal gave an amount but no denomination.
    TokenErr { denom: String },
}

} // verus!
