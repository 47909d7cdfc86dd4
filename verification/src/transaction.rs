//! Errors of statements run inside a transaction.
use vstd::prelude::*;

verus! {

/// Why a statement inside a transaction failed.
#[derive(Clone, Debug, PartialEq, Eq)]
pub struct TransactionError(pub String);

/// The error whose message is `message`.
pub open spec fn tx_error(message: Seq<char>) -> Result<Seq<char>, Seq<char>> {
    Err(message)
}

/// A fallible text result by value.
pub open spec fn tx_view(r: Result<String, TransactionError>) -> Result<Seq<char>, Seq<char>> {
    match r {
        Ok(s) => Ok(s@),
        Err(e) => Err(e.0@),
    }
}

/// A failure with the text `message`.
pub fn transaction_error(message: &str) -> (r: TransactionError)
    ensures
        r.0@ == message@,
{
    TransactionError(crate::text::owned(message))
}

} // verus!
