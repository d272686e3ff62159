//! Asset identifiers. The chain's native asset is written as the empty byte
//! string; a fungible asset is named by an identifier of the form
//! `TICKER-rrrrrr`: a ticker of 3 to 10 uppercase alphanumeric bytes, a dash,
//! and 6 lowercase alphanumeric bytes.

use vstd::prelude::*;

verus! {

/// The identifier of the chain's native asset: the empty byte string.
pub open spec fn is_native(id: Seq<u8>) -> bool {
    id.len() == 0
}

/// An uppercase letter or a digit: the bytes a ticker may contain.
pub open spec fn is_ticker_byte(b: u8) -> bool {
    (65 <= b && b <= 90) || (48 <= b && b <= 57)
}

/// A lowercase letter or a digit: the bytes of the random suffix.
pub open spec fn is_suffix_byte(b: u8) -> bool {
    (97 <= b && b <= 122) || (48 <= b && b <= 57)
}

/// A syntactically valid fungible-asset identifier: 3 to 10 ticker bytes,
/// then a dash (byte 45), then exactly 6 suffix bytes.
pub open spec fn valid_asset_id(id: Seq<u8>) -> bool {
    &&& 10 <= id.len() <= 17
    &&& forall|i: int| 0 <= i < id.len() - 7 ==> is_ticker_byte(#[trigger] id[i])
    &&& id[id.len() - 7] == 45u8
    &&& forall|i: int| id.len() - 6 <= i < id.len() ==> is_suffix_byte(#[trigger] id[i])
}

/// Decides whether `id` names the native asset.
pub fn is_native_asset(id: &[u8]) -> (r: bool)
    ensures
        r == is_native(id@),
{
    id.len() == 0
}

/// Decides whether `id` is a syntactically valid fungible-asset identifier.
pub fn is_valid_asset_id(id: &[u8]) -> (r: bool)
    ensures
        r == valid_asset_id(id@),
{
    let len: usize = id.len();
    if len < 10 || len > 17 {
        return false;
    }
    let ticker_len: usize = len - 7;
    let mut i: usize = 0;
    while i < ticker_len
        invariant
            10 <= len <= 17,
            ticker_len == len - 7,
            len == id@.len(),
            i <= ticker_len,
            forall|j: int| 0 <= j < i ==> is_ticker_byte(#[trigger] id@[j]),
        decreases ticker_len - i,
    {
        let b: u8 = id[i];
        if !((65 <= b && b <= 90) || (48 <= b && b <= 57)) {
            return false;
        }
        i = i + 1;
    }
    if id[ticker_len] != 45 {
        return false;
    }
    let mut k: usize = ticker_len + 1;
    while k < len
        invariant
            10 <= len <= 17,
            ticker_len == len - 7,
            len == id@.len(),
            ticker_len + 1 <= k <= len,
            forall|j: int| ticker_len + 1 <= j < k ==> is_suffix_byte(#[trigger] id@[j]),
        decreases len - k,
    {
        let b: u8 = id[k];
        if !((97 <= b && b <= 122) || (48 <= b && b <= 57)) {
            return false;
        }
        k = k + 1;
    }
    true
}

/// An identifier is accepted as a payment asset if it names the native asset
/// or is a syntactically valid fungible-asset identifier.
pub open spec fn acceptable_asset_id(id: Seq<u8>) -> bool {
    is_native(id) || valid_asset_id(id)
}

} // verus!
