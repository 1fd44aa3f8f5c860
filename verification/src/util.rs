//! Shared primitives of the protocol engine: the 8-bit signed wrapping
//! checksum, the JDK-style string hash used for the device identity, and
//! the bounded wrap-around counter that produces packet ids.

use vstd::prelude::*;

verus! {

/// The checksum accumulator state after summing `data` into a signed byte
/// with two's-complement wraparound, as the device's own firmware does.
pub open spec fn checksum_acc(data: Seq<u8>) -> i8
    decreases data.len(),
{
    if data.len() == 0 {
        0i8
    } else {
        vstd::wrapping::i8_specs::wrapping_add(checksum_acc(data.drop_last()), data.last() as i8)
    }
}

/// The frame checksum of a byte range: the signed wrapping sum of the
/// bytes, reinterpreted as an unsigned byte.
pub open spec fn checksum_spec(data: Seq<u8>) -> u8 {
    checksum_acc(data) as u8
}

/// Sums each byte as a signed 8-bit value with two's-complement
/// wraparound, then reinterprets the final signed result as unsigned.
pub fn checksum(data: &[u8]) -> (r: u8)
    ensures
        r == checksum_spec(data@),
{
    let mut value: i8 = 0;
    let mut i: usize = 0;
    while i < data.len()
        invariant
            i <= data@.len(),
            value == checksum_acc(data@.take(i as int)),
        decreases data@.len() - i,
    {
        let b = data[i];
        value = value.wrapping_add(#[verifier::truncate] (b as i8));
        proof {
            assert(data@.take(i + 1).drop_last() =~= data@.take(i as int));
            assert(data@.take(i + 1).last() == data@[i as int]);
        }
        i = i + 1;
    }
    proof {
        assert(data@.take(data@.len() as int) =~= data@);
    }
    value as u8
}

/// The UTF-16 encoding of one character: a single code unit for scalar
/// values below `0x10000`, a surrogate pair for the rest.
pub open spec fn utf16_of_char(c: char) -> Seq<u16> {
    if (c as u32) < 0x10000 {
        seq![(c as u32) as u16]
    } else {
        seq![
            (0xD800 + ((c as u32) - 0x10000) / 0x400) as u16,
            (0xDC00 + ((c as u32) - 0x10000) % 0x400) as u16,
        ]
    }
}

/// The UTF-16 encoding of a character sequence, code units in order.
pub open spec fn utf16_of(s: Seq<char>) -> Seq<u16> {
    s.map_values(|c: char| utf16_of_char(c)).flatten()
}

/// The JDK string hash over a sequence of UTF-16 code units: starting
/// from zero, each unit is folded in as `h * 31 + unit` with 32-bit
/// signed wraparound, which equals the sum of `unit[i] * 31^(n-1-i)`
/// under the same wraparound.
pub open spec fn jdk_hash_spec(units: Seq<u16>) -> i32
    decreases units.len(),
{
    if units.len() == 0 {
        0i32
    } else {
        vstd::wrapping::i32_specs::wrapping_add(
            vstd::wrapping::i32_specs::wrapping_mul(jdk_hash_spec(units.drop_last()), 31),
            units.last() as i32,
        )
    }
}

/// The JDK string hash of an already-encoded UTF-16 code unit sequence.
pub fn jdk_hash_units(units: &[u16]) -> (r: i32)
    ensures
        r == jdk_hash_spec(units@),
{
    let mut h: i32 = 0;
    let mut i: usize = 0;
    while i < units.len()
        invariant
            i <= units@.len(),
            h == jdk_hash_spec(units@.take(i as int)),
        decreases units@.len() - i,
    {
        let unit = units[i];
        h = h.wrapping_mul(31).wrapping_add(unit as i32);
        proof {
            assert(units@.take(i + 1).drop_last() =~= units@.take(i as int));
            assert(units@.take(i + 1).last() == units@[i as int]);
        }
        i = i + 1;
    }
    proof {
        assert(units@.take(units@.len() as int) =~= units@);
    }
    h
}

/// Relies on `str::encode_utf16`: yields the string's UTF-16 code units
/// in order, one unit per character below `0x10000` and a surrogate pair
/// for each character above it.
#[verifier::external_body]
fn utf16_units(s: &str) -> (r: Vec<u16>)
    ensures
        r@ == utf16_of(s@),
{
    s.encode_utf16().collect()
}

/// The JDK string hash of a string, iterating its UTF-16 code units
/// (not its code points), as the device's bind handshake requires.
pub fn jdk_hash_code(s: &str) -> (r: i32)
    ensures
        r == jdk_hash_spec(utf16_of(s@)),
{
    let units = utf16_units(s);
    jdk_hash_units(units.as_slice())
}

/// Bounded wrap-around counter: yields `id`, advances by `increment`,
/// and resets to `start` once the advanced value reaches `max`. The
/// session draws its packet ids from one of these.
pub struct Counter {
    pub id: u8,
    pub start: u8,
    pub increment: u8,
    pub max: u8,
}

impl Counter {
    /// The counter stays within its bounds and always advances.
    pub open spec fn wf(self) -> bool {
        &&& self.start <= self.id < self.max
        &&& 1 <= self.increment
    }

    pub fn new(start: u8, increment: u8, max: u8) -> (r: Counter)
        requires
            start < max,
            1 <= increment,
        ensures
            r.wf(),
            r == (Counter { id: start, start: start, increment: increment, max: max }),
    {
        Counter { id: start, max: max, start: start, increment: increment }
    }

    /// The counter state after one step: advanced by `increment`, or
    /// wrapped back to `start` once the advanced value reaches `max`.
    pub open spec fn advanced(self) -> Counter {
        Counter {
            id: if self.id + self.increment >= self.max {
                self.start
            } else {
                (self.id + self.increment) as u8
            },
            ..self
        }
    }

    /// Returns the current value, then advances; wraps back to `start`
    /// when the advanced value would reach `max`, so the values cycle
    /// with no gap and no backtracking.
    pub fn next(&mut self) -> (r: u8)
        requires
            old(self).wf(),
        ensures
            final(self).wf(),
            r == old(self).id,
            *final(self) == old(self).advanced(),
    {
        let value: u8 = self.id;
        let advanced: u16 = self.id as u16 + self.increment as u16;
        if advanced >= self.max as u16 {
            self.id = self.start;
        } else {
            self.id = advanced as u8;
        }
        value
    }
}

} // verus!
