use vstd::prelude::*;
use crate::reading::TDS;
use crate::store::{latest_of, latest_spec, recent_of, recent_spec};

verus! {

/// The most readings the history query returns.
pub const HISTORY_LIMIT: usize = 60;

/// Why a read query yields no result; each is answered with a server error.
#[derive(Clone, Copy, Debug, PartialEq, Eq, Structural)]
pub enum ReadError {
    /// The store could not be queried.
    StoreUnavailable,
    /// The store holds no reading.
    NoReading,
}

/// The answer to a latest-reading query, from the rows that the store
/// returned in insertion order (`None` where the query failed).
pub fn last_message(loaded: Option<Vec<TDS>>) -> (r: Result<TDS, ReadError>)
    ensures
        match loaded {
            None => r == Err::<TDS, ReadError>(ReadError::StoreUnavailable),
            Some(rows) => match latest_spec(rows@) {
                Some(t) => r == Ok::<TDS, ReadError>(t),
                None => r == Err::<TDS, ReadError>(ReadError::NoReading),
            },
        },
{
    match loaded {
        None => Err(ReadError::StoreUnavailable),
        Some(rows) => match latest_of(&rows) {
            Some(t) => Ok(t),
            None => Err(ReadError::NoReading),
        },
    }
}

/// The answer to a history query: at most `HISTORY_LIMIT` readings, newest
/// first, from the rows that the store returned in insertion order (`None`
/// where the query failed).
pub fn tds_history(loaded: Option<Vec<TDS>>) -> (r: Result<Vec<TDS>, ReadError>)
    ensures
        match loaded {
            None => r is Err && r->Err_0 == ReadError::StoreUnavailable,
            Some(rows) => r is Ok && r->Ok_0@ == recent_spec(rows@, HISTORY_LIMIT as nat),
        },
{
    match loaded {
        None => Err(ReadError::StoreUnavailable),
        Some(rows) => Ok(recent_of(&rows, HISTORY_LIMIT)),
    }
}

} // verus!
