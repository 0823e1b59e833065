//! Validation of the size allocation a user types for a farm.
//!
//! The text is a human-readable byte-size quantity ("2 GB", "500 MiB"). It is
//! accepted when it parses and the parsed count reaches the minimum farm
//! size; the text itself is kept as entered, valid or not.

use std::str::FromStr;
use vstd::prelude::*;

verus! {

/// Smallest allocation accepted for a farm: 2 * 10^9 bytes, that is two
/// decimal gigabytes, not binary ones.
pub const MIN_FARM_SIZE: u64 = 2_000_000_000;

/// The byte count that bytesize reads out of a human-readable size string,
/// or `None` where the string does not parse as one.
pub uninterp spec fn parsed_byte_size(s: Seq<char>) -> Option<u64>;

/// Relies on bytesize::ByteSize::from_str to parse the string and on
/// ByteSize::as_u64 to read the count back out; the result depends on the
/// characters alone.
#[verifier::external_body]
fn parse_byte_size(s: &str) -> (r: Option<u64>)
    ensures
        r == parsed_byte_size(s@),
{
    match bytesize::ByteSize::from_str(s) {
        Ok(size) => Some(size.as_u64()),
        Err(_) => None,
    }
}

/// A size string is accepted exactly when it parses and the parsed byte
/// count reaches the minimum farm size.
pub open spec fn size_valid(s: Seq<char>) -> bool {
    match parsed_byte_size(s) {
        Some(bytes) => bytes >= MIN_FARM_SIZE,
        None => false,
    }
}

pub fn is_size_valid(size: &str) -> (r: bool)
    ensures
        r == size_valid(size@),
{
    match parse_byte_size(size) {
        Some(bytes) => bytes >= MIN_FARM_SIZE,
        None => false,
    }
}

/// Law: the minimum is a sharp boundary. A string parsing to exactly the
/// minimum is valid, one byte fewer is invalid, and a string that does not
/// parse is invalid whatever the threshold.
pub proof fn lemma_threshold_boundary(s: Seq<char>)
    ensures
        parsed_byte_size(s) == Some(2_000_000_000u64) ==> size_valid(s),
        parsed_byte_size(s) == Some(1_999_999_999u64) ==> !size_valid(s),
        parsed_byte_size(s) is None ==> !size_valid(s),
{
}

} // verus!
