//! The identifier under which the overlay deduplicates a publication: the
//! decimal text of a hash of its content.

use std::collections::hash_map::DefaultHasher;
use std::hash::{Hash, Hasher};
use vstd::prelude::*;
use vstd::std_specs::hash::DefaultHasherAdditionalSpecFns;
use vstd::string::StringExecFns;

verus! {

/// The text of one decimal digit.
pub open spec fn digit_text(digit: nat) -> Seq<char> {
    if digit == 0 {
        "0"@
    } else if digit == 1 {
        "1"@
    } else if digit == 2 {
        "2"@
    } else if digit == 3 {
        "3"@
    } else if digit == 4 {
        "4"@
    } else if digit == 5 {
        "5"@
    } else if digit == 6 {
        "6"@
    } else if digit == 7 {
        "7"@
    } else if digit == 8 {
        "8"@
    } else {
        "9"@
    }
}

/// The decimal text of a number, without leading zeros.
pub open spec fn decimal_text(value: nat) -> Seq<char>
    decreases value,
{
    if value < 10 {
        digit_text(value)
    } else {
        decimal_text(value / 10) + digit_text(value % 10)
    }
}

fn digit(value: u64) -> (text: &'static str)
    requires
        value < 10,
    ensures
        text@ == digit_text(value as nat),
{
    if value == 0 {
        "0"
    } else if value == 1 {
        "1"
    } else if value == 2 {
        "2"
    } else if value == 3 {
        "3"
    } else if value == 4 {
        "4"
    } else if value == 5 {
        "5"
    } else if value == 6 {
        "6"
    } else if value == 7 {
        "7"
    } else if value == 8 {
        "8"
    } else {
        "9"
    }
}

/// The decimal text of `value`.
pub fn decimal(value: u64) -> (text: String)
    ensures
        text@ == decimal_text(value as nat),
    decreases value,
{
    if value < 10 {
        digit(value).to_owned()
    } else {
        let mut text = decimal(value / 10);
        text.append(digit(value % 10));
        text
    }
}

/// Whether `writes` can be what hashing the byte slice `data` feeds a
/// hasher: the bytes of `data` at the end, after a length prefix whose form
/// depends on the machine, cut into writes in whatever way.
pub open spec fn feeds(writes: Seq<Seq<u8>>, data: Seq<u8>) -> bool {
    data.is_suffix_of(writes.flatten())
}

/// Whether a hasher that had taken the writes `before` has taken, in
/// `after`, what hashing the byte slice `data` feeds it besides.
pub open spec fn fed(before: Seq<Seq<u8>>, after: Seq<Seq<u8>>, data: Seq<u8>) -> bool {
    exists|writes: Seq<Seq<u8>>| feeds(writes, data) && after == before + writes
}

/// Calls `Hash::hash` of a byte slice, which feeds the hasher the length of
/// the slice, in a form that depends on the machine, and then its bytes.
/// Nothing is claimed of the prefix, nor of how the bytes are cut into
/// writes.
#[verifier::external_body]
pub(crate) fn feed(state: &mut DefaultHasher, data: &[u8])
    ensures
        fed(old(state)@, final(state)@, data@),
{
    data.hash(state)
}

/// The identifier of a publication with this content: the decimal text of
/// the default hash of the content, taken as a byte slice. The identifier
/// depends on the content, and on the machine only through the length
/// prefix that hashing a slice puts before its bytes.
pub fn message_id(data: &[u8]) -> (id: String)
    ensures
        exists|writes: Seq<Seq<u8>>|
            feeds(writes, data@) && id@ == decimal_text(DefaultHasher::spec_finish(writes) as nat),
{
    let mut state = DefaultHasher::new();
    feed(&mut state, data);
    assert(forall|writes: Seq<Seq<u8>>| Seq::<Seq<u8>>::empty() + writes =~= writes);
    let hash = state.finish();
    decimal(hash)
}

} // verus!
