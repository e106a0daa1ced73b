//! The record that a counter account stores.
use vstd::prelude::*;
use crate::codec::{decode_u64, encode_u64, le_of_u64, u64_from_bytes};
use crate::error::CounterError;

verus! {

/// The number of bytes that a counter account stores.
pub const ACCOUNT_SPACE: u64 = 8;

/// The whole state of a counter account: one count, stored as eight
/// little-endian bytes with nothing around them.
#[derive(Debug, Clone, Copy, PartialEq, Eq, Structural)]
pub struct CounterAccount {
    pub count: u64,
}

/// The bytes that store `count`.
pub open spec fn account_bytes(count: u64) -> Seq<u8> {
    le_of_u64(count)
}

/// The count that the stored bytes `data` hold, if they are a well-formed record.
pub open spec fn stored_count(data: Seq<u8>) -> Option<u64> {
    u64_from_bytes(data)
}

impl CounterAccount {
    /// Reads a record from the account's bytes, which must be exactly one record.
    pub fn try_from_slice(data: &[u8]) -> (r: Result<CounterAccount, CounterError>)
        ensures
            match stored_count(data@) {
                Some(c) => r == Ok::<CounterAccount, CounterError>(CounterAccount { count: c }),
                None => r == Err::<CounterAccount, CounterError>(
                    CounterError::InvalidAccountData,
                ),
            },
    {
        match decode_u64(data) {
            Some(c) => Ok(CounterAccount { count: c }),
            None => Err(CounterError::InvalidAccountData),
        }
    }

    /// The bytes that store this record.
    pub fn to_bytes(&self) -> (r: Vec<u8>)
        ensures
            r@ == account_bytes(self.count),
            r@.len() == ACCOUNT_SPACE,
            stored_count(r@) == Some(self.count),
    {
        proof {
            crate::codec::lemma_u64_round_trip(self.count);
        }
        encode_u64(self.count)
    }
}

} // verus!
