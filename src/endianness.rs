//! Fixed-width values in big-endian and little-endian byte order.
use vstd::prelude::*;

use crate::{added, appended, WriteInto};

verus! {

/// Writes a value in big-endian byte order: the most significant byte first.
pub struct BigEndian<T>(pub T);

/// Writes a value in little-endian byte order: the least significant byte first.
pub struct LittleEndian<T>(pub T);

/// The `width` lowest bytes of `n`, the most significant first.
pub open spec fn be_bytes(n: nat, width: nat) -> Seq<u8>
    decreases width,
{
    if width == 0 {
        Seq::empty()
    } else {
        be_bytes(n / 256, (width - 1) as nat).push((n % 256) as u8)
    }
}

/// The `width` lowest bytes of `n`, the least significant first.
pub open spec fn le_bytes(n: nat, width: nat) -> Seq<u8>
    decreases width,
{
    if width == 0 {
        Seq::empty()
    } else {
        seq![(n % 256) as u8] + le_bytes(n / 256, (width - 1) as nat)
    }
}

/// The byte of a boolean: `1` for true, `0` for false.
pub open spec fn bool_byte(b: bool) -> nat {
    if b {
        1
    } else {
        0
    }
}

/// The number of bytes of a `usize` or `isize` on this target.
pub open spec fn word_bytes() -> nat {
    (usize::BITS / 8) as nat
}

/// Appends the `width` lowest bytes of `value` to `sink`, the most significant first.
fn write_be(value: u128, width: usize, sink: &mut Vec<u8>)
    ensures
        appended(old(sink)@, final(sink)@),
        added(old(sink)@, final(sink)@) == be_bytes(value as nat, width as nat),
    decreases width,
{
    if width == 0 {
        assert(sink@.subrange(0, sink@.len() as int) =~= sink@);
        assert(added(sink@, sink@) =~= Seq::<u8>::empty());
        return ;
    }
    let ghost start = sink@;
    write_be(value / 256, width - 1, sink);
    let ghost middle = sink@;
    sink.push((value % 256) as u8);
    assert(added(start, sink@) =~= added(start, middle).push((value % 256) as u8));
    assert(sink@.subrange(0, start.len() as int) =~= middle.subrange(0, start.len() as int));
}

/// Appends the `width` lowest bytes of `value` to `sink`, the least significant first.
fn write_le(value: u128, width: usize, sink: &mut Vec<u8>)
    ensures
        appended(old(sink)@, final(sink)@),
        added(old(sink)@, final(sink)@) == le_bytes(value as nat, width as nat),
{
    let ghost start = sink@;
    let mut rest: u128 = value;
    let mut remaining: usize = width;
    while remaining > 0
        invariant
            start == old(sink)@,
            start.len() <= sink@.len(),
            start + le_bytes(value as nat, width as nat) == sink@ + le_bytes(
                rest as nat,
                remaining as nat,
            ),
        decreases remaining,
    {
        let ghost before = sink@;
        let ghost old_rest = rest as nat;
        sink.push((rest % 256) as u8);
        rest = rest / 256;
        remaining = remaining - 1;
        assert(sink@ + le_bytes(rest as nat, remaining as nat) =~= before + le_bytes(
            old_rest,
            (remaining + 1) as nat,
        ));
    }
    assert(sink@ + le_bytes(rest as nat, 0) =~= sink@);
    assert(added(start, sink@) =~= le_bytes(value as nat, width as nat));
    assert(sink@.subrange(0, start.len() as int) =~= start);
}

impl WriteInto for BigEndian<u8> {
    type Output = ();

    open spec fn ready(&self) -> bool {
        true
    }

    open spec fn writes(&self, bytes: Seq<u8>, out: ()) -> bool {
        bytes == be_bytes(self.0 as nat, 1)
    }

    fn write_into(self, sink: &mut Vec<u8>) {
        write_be(self.0 as u128, 1, sink)
    }
}

impl WriteInto for BigEndian<u16> {
    type Output = ();

    open spec fn ready(&self) -> bool {
        true
    }

    open spec fn writes(&self, bytes: Seq<u8>, out: ()) -> bool {
        bytes == be_bytes(self.0 as nat, 2)
    }

    fn write_into(self, sink: &mut Vec<u8>) {
        write_be(self.0 as u128, 2, sink)
    }
}

impl WriteInto for BigEndian<u32> {
    type Output = ();

    open spec fn ready(&self) -> bool {
        true
    }

    open spec fn writes(&self, bytes: Seq<u8>, out: ()) -> bool {
        bytes == be_bytes(self.0 as nat, 4)
    }

    fn write_into(self, sink: &mut Vec<u8>) {
        write_be(self.0 as u128, 4, sink)
    }
}

impl WriteInto for BigEndian<u64> {
    type Output = ();

    open spec fn ready(&self) -> bool {
        true
    }

    open spec fn writes(&self, bytes: Seq<u8>, out: ()) -> bool {
        bytes == be_bytes(self.0 as nat, 8)
    }

    fn write_into(self, sink: &mut Vec<u8>) {
        write_be(self.0 as u128, 8, sink)
    }
}

impl WriteInto for BigEndian<u128> {
    type Output = ();

    open spec fn ready(&self) -> bool {
        true
    }

    open spec fn writes(&self, bytes: Seq<u8>, out: ()) -> bool {
        bytes == be_bytes(self.0 as nat, 16)
    }

    fn write_into(self, sink: &mut Vec<u8>) {
        write_be(self.0, 16, sink)
    }
}

impl WriteInto for BigEndian<usize> {
    type Output = ();

    open spec fn ready(&self) -> bool {
        true
    }

    open spec fn writes(&self, bytes: Seq<u8>, out: ()) -> bool {
        bytes == be_bytes(self.0 as nat, word_bytes())
    }

    fn write_into(self, sink: &mut Vec<u8>) {
        write_be(self.0 as u128, (usize::BITS / 8) as usize, sink)
    }
}

impl WriteInto for BigEndian<i8> {
    type Output = ();

    open spec fn ready(&self) -> bool {
        true
    }

    open spec fn writes(&self, bytes: Seq<u8>, out: ()) -> bool {
        bytes == be_bytes((self.0 as u8) as nat, 1)
    }

    fn write_into(self, sink: &mut Vec<u8>) {
        write_be(self.0 as u8 as u128, 1, sink)
    }
}

impl WriteInto for BigEndian<i16> {
    type Output = ();

    open spec fn ready(&self) -> bool {
        true
    }

    open spec fn writes(&self, bytes: Seq<u8>, out: ()) -> bool {
        bytes == be_bytes((self.0 as u16) as nat, 2)
    }

    fn write_into(self, sink: &mut Vec<u8>) {
        write_be(self.0 as u16 as u128, 2, sink)
    }
}

impl WriteInto for BigEndian<i32> {
    type Output = ();

    open spec fn ready(&self) -> bool {
        true
    }

    open spec fn writes(&self, bytes: Seq<u8>, out: ()) -> bool {
        bytes == be_bytes((self.0 as u32) as nat, 4)
    }

    fn write_into(self, sink: &mut Vec<u8>) {
        write_be(self.0 as u32 as u128, 4, sink)
    }
}

impl WriteInto for BigEndian<i64> {
    type Output = ();

    open spec fn ready(&self) -> bool {
        true
    }

    open spec fn writes(&self, bytes: Seq<u8>, out: ()) -> bool {
        bytes == be_bytes((self.0 as u64) as nat, 8)
    }

    fn write_into(self, sink: &mut Vec<u8>) {
        write_be(self.0 as u64 as u128, 8, sink)
    }
}

impl WriteInto for BigEndian<i128> {
    type Output = ();

    open spec fn ready(&self) -> bool {
        true
    }

    open spec fn writes(&self, bytes: Seq<u8>, out: ()) -> bool {
        bytes == be_bytes((self.0 as u128) as nat, 16)
    }

    fn write_into(self, sink: &mut Vec<u8>) {
        write_be(self.0 as u128, 16, sink)
    }
}

impl WriteInto for BigEndian<isize> {
    type Output = ();

    open spec fn ready(&self) -> bool {
        true
    }

    open spec fn writes(&self, bytes: Seq<u8>, out: ()) -> bool {
        bytes == be_bytes((self.0 as usize) as nat, word_bytes())
    }

    fn write_into(self, sink: &mut Vec<u8>) {
        write_be(self.0 as usize as u128, (usize::BITS / 8) as usize, sink)
    }
}

impl WriteInto for BigEndian<bool> {
    type Output = ();

    open spec fn ready(&self) -> bool {
        true
    }

    open spec fn writes(&self, bytes: Seq<u8>, out: ()) -> bool {
        bytes == be_bytes(bool_byte(self.0), 1)
    }

    fn write_into(self, sink: &mut Vec<u8>) {
        write_be(if self.0 { 1 } else { 0 }, 1, sink)
    }
}

impl WriteInto for BigEndian<char> {
    type Output = ();

    open spec fn ready(&self) -> bool {
        true
    }

    open spec fn writes(&self, bytes: Seq<u8>, out: ()) -> bool {
        bytes == be_bytes((self.0 as u32) as nat, 4)
    }

    fn write_into(self, sink: &mut Vec<u8>) {
        write_be(self.0 as u32 as u128, 4, sink)
    }
}

impl WriteInto for LittleEndian<u8> {
    type Output = ();

    open spec fn ready(&self) -> bool {
        true
    }

    open spec fn writes(&self, bytes: Seq<u8>, out: ()) -> bool {
        bytes == le_bytes(self.0 as nat, 1)
    }

    fn write_into(self, sink: &mut Vec<u8>) {
        write_le(self.0 as u128, 1, sink)
    }
}

impl WriteInto for LittleEndian<u16> {
    type Output = ();

    open spec fn ready(&self) -> bool {
        true
    }

    open spec fn writes(&self, bytes: Seq<u8>, out: ()) -> bool {
        bytes == le_bytes(self.0 as nat, 2)
    }

    fn write_into(self, sink: &mut Vec<u8>) {
        write_le(self.0 as u128, 2, sink)
    }
}

impl WriteInto for LittleEndian<u32> {
    type Output = ();

    open spec fn ready(&self) -> bool {
        true
    }

    open spec fn writes(&self, bytes: Seq<u8>, out: ()) -> bool {
        bytes == le_bytes(self.0 as nat, 4)
    }

    fn write_into(self, sink: &mut Vec<u8>) {
        write_le(self.0 as u128, 4, sink)
    }
}

impl WriteInto for LittleEndian<u64> {
    type Output = ();

    open spec fn ready(&self) -> bool {
        true
    }

    open spec fn writes(&self, bytes: Seq<u8>, out: ()) -> bool {
        bytes == le_bytes(self.0 as nat, 8)
    }

    fn write_into(self, sink: &mut Vec<u8>) {
        write_le(self.0 as u128, 8, sink)
    }
}

impl WriteInto for LittleEndian<u128> {
    type Output = ();

    open spec fn ready(&self) -> bool {
        true
    }

    open spec fn writes(&self, bytes: Seq<u8>, out: ()) -> bool {
        bytes == le_bytes(self.0 as nat, 16)
    }

    fn write_into(self, sink: &mut Vec<u8>) {
        write_le(self.0, 16, sink)
    }
}

impl WriteInto for LittleEndian<usize> {
    type Output = ();

    open spec fn ready(&self) -> bool {
        true
    }

    open spec fn writes(&self, bytes: Seq<u8>, out: ()) -> bool {
        bytes == le_bytes(self.0 as nat, word_bytes())
    }

    fn write_into(self, sink: &mut Vec<u8>) {
        write_le(self.0 as u128, (usize::BITS / 8) as usize, sink)
    }
}

impl WriteInto for LittleEndian<i8> {
    type Output = ();

    open spec fn ready(&self) -> bool {
        true
    }

    open spec fn writes(&self, bytes: Seq<u8>, out: ()) -> bool {
        bytes == le_bytes((self.0 as u8) as nat, 1)
    }

    fn write_into(self, sink: &mut Vec<u8>) {
        write_le(self.0 as u8 as u128, 1, sink)
    }
}

impl WriteInto for LittleEndian<i16> {
    type Output = ();

    open spec fn ready(&self) -> bool {
        true
    }

    open spec fn writes(&self, bytes: Seq<u8>, out: ()) -> bool {
        bytes == le_bytes((self.0 as u16) as nat, 2)
    }

    fn write_into(self, sink: &mut Vec<u8>) {
        write_le(self.0 as u16 as u128, 2, sink)
    }
}

impl WriteInto for LittleEndian<i32> {
    type Output = ();

    open spec fn ready(&self) -> bool {
        true
    }

    open spec fn writes(&self, bytes: Seq<u8>, out: ()) -> bool {
        bytes == le_bytes((self.0 as u32) as nat, 4)
    }

    fn write_into(self, sink: &mut Vec<u8>) {
        write_le(self.0 as u32 as u128, 4, sink)
    }
}

impl WriteInto for LittleEndian<i64> {
    type Output = ();

    open spec fn ready(&self) -> bool {
        true
    }

    open spec fn writes(&self, bytes: Seq<u8>, out: ()) -> bool {
        bytes == le_bytes((self.0 as u64) as nat, 8)
    }

    fn write_into(self, sink: &mut Vec<u8>) {
        write_le(self.0 as u64 as u128, 8, sink)
    }
}

impl WriteInto for LittleEndian<i128> {
    type Output = ();

    open spec fn ready(&self) -> bool {
        true
    }

    open spec fn writes(&self, bytes: Seq<u8>, out: ()) -> bool {
        bytes == le_bytes((self.0 as u128) as nat, 16)
    }

    fn write_into(self, sink: &mut Vec<u8>) {
        write_le(self.0 as u128, 16, sink)
    }
}

impl WriteInto for LittleEndian<isize> {
    type Output = ();

    open spec fn ready(&self) -> bool {
        true
    }

    open spec fn writes(&self, bytes: Seq<u8>, out: ()) -> bool {
        bytes == le_bytes((self.0 as usize) as nat, word_bytes())
    }

    fn write_into(self, sink: &mut Vec<u8>) {
        write_le(self.0 as usize as u128, (usize::BITS / 8) as usize, sink)
    }
}

impl WriteInto for LittleEndian<bool> {
    type Output = ();

    open spec fn ready(&self) -> bool {
        true
    }

    open spec fn writes(&self, bytes: Seq<u8>, out: ()) -> bool {
        bytes == le_bytes(bool_byte(self.0), 1)
    }

    fn write_into(self, sink: &mut Vec<u8>) {
        write_le(if self.0 { 1 } else { 0 }, 1, sink)
    }
}

impl WriteInto for LittleEndian<char> {
    type Output = ();

    open spec fn ready(&self) -> bool {
        true
    }

    open spec fn writes(&self, bytes: Seq<u8>, out: ()) -> bool {
        bytes == le_bytes((self.0 as u32) as nat, 4)
    }

    fn write_into(self, sink: &mut Vec<u8>) {
        write_le(self.0 as u32 as u128, 4, sink)
    }
}

} // verus!
