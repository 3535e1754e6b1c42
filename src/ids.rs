//! Correlation ids for dispatched events, and runtime ids.
//!
//! A runtime id is a UUID held as the `u128` of its sixteen bytes read
//! big-endian.
use vstd::arithmetic::power::pow;
use vstd::prelude::*;

verus! {

/// The id that follows `id`: one more, wrapping to zero past `u32::MAX`.
pub open spec fn successor(id: u32) -> u32 {
    if id == u32::MAX {
        0
    } else {
        (id + 1) as u32
    }
}

/// Counter handing out correlation ids, owned by whoever dispatches events.
///
/// Ids increase by one per draw and wrap only when the width of `u32` is
/// exhausted, so an id comes back only after four billion draws.
pub struct StreamIdCounter {
    pub next: u32,
}

impl StreamIdCounter {
    /// A counter whose first id is zero.
    pub fn new() -> (r: Self)
        ensures
            r.next == 0,
    {
        StreamIdCounter { next: 0 }
    }

    /// A counter whose first id is `first`.
    pub fn starting_at(first: u32) -> (r: Self)
        ensures
            r.next == first,
    {
        StreamIdCounter { next: first }
    }
}

/// Draws the next correlation id from `counter`.
pub fn get_next_stream_id(counter: &mut StreamIdCounter) -> (r: u32)
    ensures
        r == old(counter).next,
        final(counter).next == successor(old(counter).next),
{
    let r = counter.next;
    if r == u32::MAX {
        counter.next = 0;
    } else {
        counter.next = r + 1;
    }
    r
}

/// Lower-case hexadecimal digit of `d`, for `0 <= d < 16`.
pub open spec fn hex_digit(d: int) -> char {
    seq!['0', '1', '2', '3', '4', '5', '6', '7', '8', '9', 'a', 'b', 'c', 'd', 'e', 'f'][d]
}

/// The simple text form of a runtime id: 32 lower-case hexadecimal digits,
/// most significant first, without hyphens.
pub open spec fn simple_uuid_text(id: u128) -> Seq<char> {
    Seq::new(32, |i: int| hex_digit((id as int / pow(16, (31 - i) as nat)) % 16))
}

/// What `uuid::Uuid::parse_str` makes of a text, as a runtime id.
pub uninterp spec fn parsed_uuid(s: Seq<char>) -> Option<u128>;

/// Draws a fresh random runtime id.
///
/// Relies on `uuid::Uuid::new_v4`, which fills the id from the operating
/// system's random source; nothing is known of the value drawn.
#[verifier::external_body]
pub(crate) fn fresh_runtime_id() -> (r: u128) {
    uuid::Uuid::new_v4().as_u128()
}

/// The simple text form of `id`.
///
/// Relies on `uuid::Uuid::from_u128`, which reads the integer big-endian, and
/// on the `Display` of `uuid::adapter::Simple`, which writes each byte as two
/// lower-case hexadecimal digits.
#[verifier::external_body]
pub fn runtime_id_text(id: u128) -> (r: String)
    ensures
        r@ == simple_uuid_text(id),
{
    uuid::Uuid::from_u128(id).to_simple().to_string()
}

/// Reads a runtime id from text in any of the forms UUIDs are written in.
///
/// Relies on `uuid::Uuid::parse_str` and `uuid::Uuid::as_u128`; the parser
/// accepts the simple form that [`runtime_id_text`] writes.
#[verifier::external_body]
pub fn parse_runtime_id(s: &str) -> (r: Option<u128>)
    ensures
        r == parsed_uuid(s@),
        forall|id: u128| s@ == simple_uuid_text(id) ==> r == Some(id),
{
    match uuid::Uuid::parse_str(s) {
        Ok(u) => Some(u.as_u128()),
        Err(_) => None,
    }
}

} // verus!
