//! The identifier and the instant of a feedback record.

use crate::text::{hex, integer_text, push_hex, push_integer};
use crate::util::{now_timestamp, rfc3339_of_timestamp, rfc3339_utc};
use vstd::prelude::*;
use vstd::slice::slice_subrange;

verus! {

/// Whether a 128-bit number is a random (version 4) UUID of the RFC variant:
/// its version field holds 4 and its variant field holds binary 10.
pub open spec fn is_random_uuid(id: u128) -> bool {
    id & 0x0000_0000_0000_f000_c000_0000_0000_0000u128
        == 0x0000_0000_0000_4000_8000_0000_0000_0000u128
}

/// Calls `uuid::Uuid::new_v4` and takes the identifier as a number. Claims what
/// holds of every version 4 UUID: the version and variant fields.
#[verifier::external_body]
fn new_v4() -> (id: u128)
    ensures
        is_random_uuid(id),
{
    uuid::Uuid::new_v4().as_u128()
}

/// The identifier of a feedback record: a UUID, held as its 128-bit number.
#[derive(Debug, Clone, Copy, PartialEq, Eq, Structural)]
pub struct FeedbackId(pub u128);

/// The byte at place `i` of the sixteen bytes of a UUID, the highest first.
pub open spec fn uuid_byte(id: u128, i: int) -> u8 {
    ((id >> (((15 - i) * 8) as u128)) & 0xff) as u8
}

/// The sixteen bytes of a UUID, the highest first.
pub open spec fn uuid_bytes(id: u128) -> Seq<u8> {
    Seq::new(16, |i: int| uuid_byte(id, i))
}

/// A UUID as it is usually written: its bytes in lower-case hexadecimal, in
/// groups of four, two, two, two and six bytes with hyphens between them.
pub open spec fn uuid_text(id: u128) -> Seq<char> {
    let bytes = uuid_bytes(id);
    hex(bytes.subrange(0, 4)) + "-"@ + hex(bytes.subrange(4, 6)) + "-"@ + hex(
        bytes.subrange(6, 8),
    ) + "-"@ + hex(bytes.subrange(8, 10)) + "-"@ + hex(bytes.subrange(10, 16))
}

impl FeedbackId {
    /// A fresh random identifier.
    pub fn new() -> (id: FeedbackId)
        ensures
            is_random_uuid(id.0),
    {
        FeedbackId(new_v4())
    }

    /// The sixteen bytes of the identifier, the highest first.
    pub fn to_bytes(&self) -> (bytes: Vec<u8>)
        ensures
            bytes@ == uuid_bytes(self.0),
    {
        let id = self.0;
        let mut bytes: Vec<u8> = Vec::new();
        let mut i: u128 = 0;
        while i < 16
            invariant
                i <= 16,
                id == self.0,
                bytes.len() == i,
                forall|k: int| 0 <= k < i ==> bytes@[k] == uuid_byte(id, k),
            decreases 16 - i,
        {
            let shift: u128 = (15 - i) * 8;
            let low: u128 = (id >> shift) & 0xff;
            assert(low < 256) by (bit_vector)
                requires
                    low == (id >> shift) & 0xff,
            ;
            bytes.push(low as u8);
            i += 1;
        }
        assert(bytes@ =~= uuid_bytes(id));
        bytes
    }

    /// The identifier as a UUID is usually written.
    pub fn to_string(&self) -> (text: String)
        ensures
            text@ == uuid_text(self.0),
    {
        let bytes = self.to_bytes();
        let mut text = String::new();
        push_hex(&mut text, slice_subrange(bytes.as_slice(), 0, 4));
        text.append("-");
        push_hex(&mut text, slice_subrange(bytes.as_slice(), 4, 6));
        text.append("-");
        push_hex(&mut text, slice_subrange(bytes.as_slice(), 6, 8));
        text.append("-");
        push_hex(&mut text, slice_subrange(bytes.as_slice(), 8, 10));
        text.append("-");
        push_hex(&mut text, slice_subrange(bytes.as_slice(), 10, 16));
        assert(text@ =~= uuid_text(self.0));
        text
    }
}

/// An instant, in whole seconds since the Unix epoch.
#[derive(Debug, Clone, Copy, PartialEq, Eq, Structural)]
pub struct Timestamp(pub i64);

impl Timestamp {
    /// The current instant, as the clock gives it. Whatever the clock gives,
    /// it is an instant that has a date: a record made at it can be shown to
    /// the judgment service.
    pub fn new() -> (now: Timestamp)
        ensures
            rfc3339_utc(now.0 as int) is Some,
    {
        Timestamp(now_timestamp())
    }

    /// The instant as its number of seconds in decimal.
    pub fn to_string(&self) -> (text: String)
        ensures
            text@ == integer_text(self.0 as int),
    {
        let mut text = String::new();
        push_integer(&mut text, self.0);
        assert(Seq::<char>::empty() + integer_text(self.0 as int) =~= integer_text(self.0 as int));
        text
    }

    /// The instant in UTC as RFC 3339 text with whole seconds; `None` where
    /// the instant is out of the range of representable dates.
    pub fn to_rfc3339(&self) -> (text: Option<String>)
        ensures
            match text {
                Some(t) => rfc3339_utc(self.0 as int) == Some(t@),
                None => rfc3339_utc(self.0 as int) is None,
            },
    {
        rfc3339_of_timestamp(self.0)
    }
}

} // verus!
