//! Writing typed values into a byte sink with an explicit, exact layout.
//!
//! Every encoding strategy is a wrapper type implementing [`WriteInto`]: fixed-width
//! [`BigEndian`] and [`LittleEndian`], variable-length [`Uleb128`] and [`Sleb128`], raw
//! [`Plain`] bytes, homogeneous [`Sequence`] and [`SizedSequence`], and size-prefixed
//! [`Sized`] framing. Wrappers nest; writing resolves them until bytes reach the sink.
use vstd::prelude::*;

mod endianness;
mod leb128;
mod plain;
mod sequence;
mod sized;

pub use endianness::{be_bytes, bool_byte, le_bytes, word_bytes, BigEndian, LittleEndian};
pub use plain::{
    lemma_plain_concat_bytes, lemma_plain_concat_split, native_bytes, plain_concat, Plain, PlainData,
};
pub use sequence::{all_ready, writes_each, Sequence, SizedSequence};
pub use sized::Sized;
pub use leb128::{
    count_bits_in_chunks, leb128_framed, lemma_pow128_values, lemma_sleb128_fits,
    lemma_sleb128_len, lemma_sleb128_round_trip, lemma_uleb128_fits, lemma_uleb128_len,
    lemma_uleb128_round_trip, max_leb128_size, max_leb128_size_spec, pow128, pow256,
    sleb128_bytes, sleb128_value, two_to, uleb128_bytes, uleb128_value, Sleb128, Uleb128,
};

verus! {

/// A value paired with the way its bytes are produced.
pub trait WriteInto {
    /// What a write reports (`()`, or a byte or element count).
    type Output;

    /// The condition under which the value can be written.
    spec fn ready(&self) -> bool;

    /// `bytes` is what writing the value appends to a sink, and `out` what it reports.
    spec fn writes(&self, bytes: Seq<u8>, out: Self::Output) -> bool;

    /// Appends the value's bytes to `sink`.
    fn write_into(self, sink: &mut Vec<u8>) -> (out: Self::Output)
        requires
            self.ready(),
        ensures
            appended(old(sink)@, final(sink)@),
            self.writes(added(old(sink)@, final(sink)@), out),
    ;
}

/// `after` is `before` with some bytes added at its end.
pub open spec fn appended(before: Seq<u8>, after: Seq<u8>) -> bool {
    &&& before.len() <= after.len()
    &&& after.subrange(0, before.len() as int) == before
}

/// The bytes that `after` holds past `before`.
pub open spec fn added(before: Seq<u8>, after: Seq<u8>) -> Seq<u8> {
    after.subrange(before.len() as int, after.len() as int)
}

/// Writes `value` into `sink`: `write_into(sink, Wrapper(..))` for `Wrapper(..).write_into(sink)`.
pub fn write_into<T: WriteInto>(sink: &mut Vec<u8>, value: T) -> (out: T::Output)
    requires
        value.ready(),
    ensures
        appended(old(sink)@, final(sink)@),
        value.writes(added(old(sink)@, final(sink)@), out),
{
    value.write_into(sink)
}

/// How far a cursor at `position` moves to reach the next multiple of `boundary`: always
/// forward, by at least one and at most `boundary` bytes, so an aligned position moves on to
/// the following multiple.
pub fn alignment_step(position: u64, boundary: u64) -> (step: u64)
    requires
        boundary > 0,
        position + boundary <= u64::MAX,
    ensures
        step == boundary - (position + boundary) % (boundary as int),
        1 <= step <= boundary,
        (position + step) % (boundary as int) == 0,
{
    let step = boundary - (position + boundary) % boundary;
    proof {
        let r = (position + boundary) % (boundary as int);
        assert((position + step) % (boundary as int) == 0) by (nonlinear_arith)
            requires
                r == (position + boundary) % (boundary as int),
                step == boundary - r,
                boundary > 0,
        ;
    }
    step
}

/// The position that aligning a cursor at `position` to `boundary` reaches.
pub fn aligned_position(position: u64, boundary: u64) -> (aligned: u64)
    requires
        boundary > 0,
        position + boundary <= u64::MAX,
    ensures
        aligned == position + (boundary - (position + boundary) % (boundary as int)),
        position < aligned <= position + boundary,
        aligned % boundary == 0,
{
    position + alignment_step(position, boundary)
}

} // verus!
