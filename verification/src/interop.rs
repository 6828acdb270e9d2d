//! Errors of the `anyhow` crate.

use vstd::prelude::*;

use crate::error::ErrorValue;

verus! {

/// `anyhow::Error`, carried through as an opaque value.
#[verifier::external_type_specification]
#[verifier::external_body]
pub struct ExAnyhowError(anyhow::Error);

/// Walks `anyhow::Error::chain` and keeps what each error in it displays.
///
/// The chain starts at the error itself, which displays as the whole
/// `anyhow::Error` does, and goes on through its sources. The contract
/// claims only that the chain is not empty: what an error displays is up to
/// the type behind it.
#[verifier::external_body]
fn chain_descriptions(err: &anyhow::Error) -> (descriptions: Vec<String>)
    ensures
        descriptions.len() >= 1,
{
    let mut descriptions = Vec::new();
    for cause in err.chain() {
        descriptions.push(cause.to_string());
    }
    descriptions
}

impl ErrorValue {
    /// The error value that stands for an `anyhow::Error`: it describes
    /// itself as that error displays, and has one cause for each further
    /// error in its chain.
    pub fn from_anyhow(err: &anyhow::Error) -> (value: ErrorValue) {
        let descriptions = chain_descriptions(err);
        match ErrorValue::from_descriptions(descriptions) {
            Some(value) => value,
            None => unreached(),
        }
    }
}

} // verus!
