//! The closed union of datum values a message metric can carry: text or a
//! fixed-width integer. Rendering produces the natural decimal form for
//! numerics and the raw string for text; quoting is left to each sink.
use vstd::prelude::*;
use vstd::string::StringExecFns;

use crate::strutil::spec_dec_digits;
use crate::strutil::spec_int_dec;
use crate::strutil::i128_to_dec;
use crate::strutil::u128_to_dec;

verus! {

/// One immutable measurement datum.
#[derive(Debug)]
pub enum PayloadValue {
    Text(String),
    Int8(i8),
    Int16(i16),
    Int32(i32),
    Int64(i64),
    Int128(i128),
    Uint8(u8),
    Uint16(u16),
    Uint32(u32),
    Uint64(u64),
    Uint128(u128),
}

/// The textual rendering of a value: raw text, or decimal digits with a
/// minus sign for negative integers.
pub open spec fn spec_render(v: PayloadValue) -> Seq<char> {
    match v {
        PayloadValue::Text(s) => s@,
        PayloadValue::Int8(n) => spec_int_dec(n as int),
        PayloadValue::Int16(n) => spec_int_dec(n as int),
        PayloadValue::Int32(n) => spec_int_dec(n as int),
        PayloadValue::Int64(n) => spec_int_dec(n as int),
        PayloadValue::Int128(n) => spec_int_dec(n as int),
        PayloadValue::Uint8(n) => spec_dec_digits(n as int),
        PayloadValue::Uint16(n) => spec_dec_digits(n as int),
        PayloadValue::Uint32(n) => spec_dec_digits(n as int),
        PayloadValue::Uint64(n) => spec_dec_digits(n as int),
        PayloadValue::Uint128(n) => spec_dec_digits(n as int),
    }
}

impl PayloadValue {
    /// A text datum copied from a string slice.
    pub fn text(s: &str) -> (r: PayloadValue)
        ensures
            r matches PayloadValue::Text(t) && t@ == s@,
            spec_render(r) == s@,
    {
        PayloadValue::Text(s.to_owned())
    }

    /// Renders the value as the sinks print it.
    pub fn render(&self) -> (r: String)
        ensures
            r@ == spec_render(*self),
    {
        match self {
            PayloadValue::Text(s) => s.clone(),
            PayloadValue::Int8(n) => i128_to_dec(*n as i128),
            PayloadValue::Int16(n) => i128_to_dec(*n as i128),
            PayloadValue::Int32(n) => i128_to_dec(*n as i128),
            PayloadValue::Int64(n) => i128_to_dec(*n as i128),
            PayloadValue::Int128(n) => i128_to_dec(*n),
            PayloadValue::Uint8(n) => u128_to_dec(*n as u128),
            PayloadValue::Uint16(n) => u128_to_dec(*n as u128),
            PayloadValue::Uint32(n) => u128_to_dec(*n as u128),
            PayloadValue::Uint64(n) => u128_to_dec(*n as u128),
            PayloadValue::Uint128(n) => u128_to_dec(*n),
        }
    }
}

impl Clone for PayloadValue {
    fn clone(&self) -> (r: Self)
        ensures
            r == *self,
    {
        match self {
            PayloadValue::Text(s) => PayloadValue::Text(s.clone()),
            PayloadValue::Int8(n) => PayloadValue::Int8(*n),
            PayloadValue::Int16(n) => PayloadValue::Int16(*n),
            PayloadValue::Int32(n) => PayloadValue::Int32(*n),
            PayloadValue::Int64(n) => PayloadValue::Int64(*n),
            PayloadValue::Int128(n) => PayloadValue::Int128(*n),
            PayloadValue::Uint8(n) => PayloadValue::Uint8(*n),
            PayloadValue::Uint16(n) => PayloadValue::Uint16(*n),
            PayloadValue::Uint32(n) => PayloadValue::Uint32(*n),
            PayloadValue::Uint64(n) => PayloadValue::Uint64(*n),
            PayloadValue::Uint128(n) => PayloadValue::Uint128(*n),
        }
    }
}

impl From<String> for PayloadValue {
    fn from(item: String) -> (r: Self) {
        PayloadValue::Text(item)
    }
}

impl vstd::std_specs::convert::FromSpecImpl<String> for PayloadValue {
    open spec fn obeys_from_spec() -> bool {
        true
    }

    open spec fn from_spec(item: String) -> Self {
        PayloadValue::Text(item)
    }
}

impl From<i8> for PayloadValue {
    fn from(item: i8) -> (r: Self) {
        PayloadValue::Int8(item)
    }
}

impl vstd::std_specs::convert::FromSpecImpl<i8> for PayloadValue {
    open spec fn obeys_from_spec() -> bool {
        true
    }

    open spec fn from_spec(item: i8) -> Self {
        PayloadValue::Int8(item)
    }
}

impl From<i16> for PayloadValue {
    fn from(item: i16) -> (r: Self) {
        PayloadValue::Int16(item)
    }
}

impl vstd::std_specs::convert::FromSpecImpl<i16> for PayloadValue {
    open spec fn obeys_from_spec() -> bool {
        true
    }

    open spec fn from_spec(item: i16) -> Self {
        PayloadValue::Int16(item)
    }
}

impl From<i32> for PayloadValue {
    fn from(item: i32) -> (r: Self) {
        PayloadValue::Int32(item)
    }
}

impl vstd::std_specs::convert::FromSpecImpl<i32> for PayloadValue {
    open spec fn obeys_from_spec() -> bool {
        true
    }

    open spec fn from_spec(item: i32) -> Self {
        PayloadValue::Int32(item)
    }
}

impl From<i64> for PayloadValue {
    fn from(item: i64) -> (r: Self) {
        PayloadValue::Int64(item)
    }
}

impl vstd::std_specs::convert::FromSpecImpl<i64> for PayloadValue {
    open spec fn obeys_from_spec() -> bool {
        true
    }

    open spec fn from_spec(item: i64) -> Self {
        PayloadValue::Int64(item)
    }
}

impl From<i128> for PayloadValue {
    fn from(item: i128) -> (r: Self) {
        PayloadValue::Int128(item)
    }
}

impl vstd::std_specs::convert::FromSpecImpl<i128> for PayloadValue {
    open spec fn obeys_from_spec() -> bool {
        true
    }

    open spec fn from_spec(item: i128) -> Self {
        PayloadValue::Int128(item)
    }
}

impl From<u8> for PayloadValue {
    fn from(item: u8) -> (r: Self) {
        PayloadValue::Uint8(item)
    }
}

impl vstd::std_specs::convert::FromSpecImpl<u8> for PayloadValue {
    open spec fn obeys_from_spec() -> bool {
        true
    }

    open spec fn from_spec(item: u8) -> Self {
        PayloadValue::Uint8(item)
    }
}

impl From<u16> for PayloadValue {
    fn from(item: u16) -> (r: Self) {
        PayloadValue::Uint16(item)
    }
}

impl vstd::std_specs::convert::FromSpecImpl<u16> for PayloadValue {
    open spec fn obeys_from_spec() -> bool {
        true
    }

    open spec fn from_spec(item: u16) -> Self {
        PayloadValue::Uint16(item)
    }
}

impl From<u32> for PayloadValue {
    fn from(item: u32) -> (r: Self) {
        PayloadValue::Uint32(item)
    }
}

impl vstd::std_specs::convert::FromSpecImpl<u32> for PayloadValue {
    open spec fn obeys_from_spec() -> bool {
        true
    }

    open spec fn from_spec(item: u32) -> Self {
        PayloadValue::Uint32(item)
    }
}

impl From<u64> for PayloadValue {
    fn from(item: u64) -> (r: Self) {
        PayloadValue::Uint64(item)
    }
}

impl vstd::std_specs::convert::FromSpecImpl<u64> for PayloadValue {
    open spec fn obeys_from_spec() -> bool {
        true
    }

    open spec fn from_spec(item: u64) -> Self {
        PayloadValue::Uint64(item)
    }
}

impl From<u128> for PayloadValue {
    fn from(item: u128) -> (r: Self) {
        PayloadValue::Uint128(item)
    }
}

impl vstd::std_specs::convert::FromSpecImpl<u128> for PayloadValue {
    open spec fn obeys_from_spec() -> bool {
        true
    }

    open spec fn from_spec(item: u128) -> Self {
        PayloadValue::Uint128(item)
    }
}

} // verus!
