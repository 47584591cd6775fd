//! Raw bytes: values and slices of plain data as they lie in memory, and UTF-8 text.
use vstd::prelude::*;
use vstd::string::StringSliceAdditionalSpecFns;

use vstd::endian::{endianness, Endian};

use crate::{added, appended, be_bytes, le_bytes, word_bytes, WriteInto};

verus! {

/// Writes a value, a slice or a text as its raw bytes, with no framing of any kind.
pub struct Plain<T>(pub T);

/// A type whose in-memory bytes can be written out as they are: it holds no pointer and
/// no padding, so its bytes are fully given by its value.
pub trait PlainData {
    /// The bytes of the value as it lies in memory.
    spec fn plain_bytes(&self) -> Seq<u8>;

    /// Appends the bytes of the value to `sink`.
    fn write_plain(&self, sink: &mut Vec<u8>)
        ensures
            appended(old(sink)@, final(sink)@),
            added(old(sink)@, final(sink)@) == self.plain_bytes(),
    ;
}

/// The bytes of a run of values laid out one after another.
pub open spec fn plain_concat<T: PlainData>(items: Seq<T>) -> Seq<u8>
    decreases items.len(),
{
    if items.len() == 0 {
        Seq::empty()
    } else {
        plain_concat(items.drop_last()) + items.last().plain_bytes()
    }
}

/// Raw bytes add no padding between values: the bytes of a run are the bytes of its first
/// `i` values followed by the bytes of the rest.
pub proof fn lemma_plain_concat_split<T: PlainData>(items: Seq<T>, i: int)
    requires
        0 <= i <= items.len(),
    ensures
        plain_concat(items) == plain_concat(items.take(i)) + plain_concat(items.skip(i)),
    decreases items.len(),
{
    if i < items.len() {
        let rest = items.drop_last();
        lemma_plain_concat_split(rest, i);
        assert(rest.take(i) =~= items.take(i));
        assert(items.skip(i).drop_last() =~= rest.skip(i));
        assert(items.skip(i).last() == items.last());
        assert(plain_concat(items) =~= plain_concat(items.take(i)) + plain_concat(items.skip(i)));
    } else {
        assert(items.take(i) =~= items);
        assert(items.skip(i) =~= Seq::<T>::empty());
        assert(plain_concat(items) + Seq::<u8>::empty() =~= plain_concat(items));
    }
}

/// The raw bytes of a byte run are the run itself.
pub proof fn lemma_plain_concat_bytes(bytes: Seq<u8>)
    ensures
        plain_concat(bytes) == bytes,
    decreases bytes.len(),
{
    if bytes.len() > 0 {
        lemma_plain_concat_bytes(bytes.drop_last());
        assert(bytes.drop_last().push(bytes.last()) =~= bytes);
    }
}

/// Appends one byte to `sink`.
fn write_byte(byte: u8, sink: &mut Vec<u8>)
    ensures
        appended(old(sink)@, final(sink)@),
        added(old(sink)@, final(sink)@) == seq![byte],
{
    let ghost start = sink@;
    sink.push(byte);
    assert(added(start, sink@) =~= seq![byte]);
    assert(sink@.subrange(0, start.len() as int) =~= start);
}

/// Appends the bytes of `items`, one after another, to `sink`.
fn write_plain_slice<T: PlainData>(items: &[T], sink: &mut Vec<u8>)
    ensures
        appended(old(sink)@, final(sink)@),
        added(old(sink)@, final(sink)@) == plain_concat(items@),
{
    let ghost start = sink@;
    let mut i: usize = 0;
    assert(added(start, sink@) =~= Seq::<u8>::empty());
    assert(sink@.subrange(0, start.len() as int) =~= start);
    while i < items.len()
        invariant
            start == old(sink)@,
            i <= items@.len(),
            appended(start, sink@),
            added(start, sink@) == plain_concat(items@.take(i as int)),
        decreases items@.len() - i,
    {
        let ghost before = sink@;
        items[i].write_plain(sink);
        proof {
            assert(items@.take(i + 1).drop_last() =~= items@.take(i as int));
            assert(added(start, sink@) =~= added(start, before) + added(before, sink@));
            assert(sink@.subrange(0, start.len() as int) =~= before.subrange(
                0,
                start.len() as int,
            ));
        }
        i = i + 1;
    }
    assert(items@.take(i as int) =~= items@);
}

/// The `width` lowest bytes of `n` in the byte order of the target.
pub open spec fn native_bytes(n: nat, width: nat) -> Seq<u8> {
    match endianness() {
        Endian::Little => le_bytes(n, width),
        Endian::Big => be_bytes(n, width),
    }
}

/// Relies on `u16::to_ne_bytes`: the bytes of `x` in the byte order of the target.
#[verifier::external_body]
fn u16_native_bytes(x: u16) -> (r: Vec<u8>)
    ensures
        r@ == native_bytes(x as nat, 2),
{
    x.to_ne_bytes().to_vec()
}

/// Relies on `u32::to_ne_bytes`: the bytes of `x` in the byte order of the target.
#[verifier::external_body]
fn u32_native_bytes(x: u32) -> (r: Vec<u8>)
    ensures
        r@ == native_bytes(x as nat, 4),
{
    x.to_ne_bytes().to_vec()
}

/// Relies on `u64::to_ne_bytes`: the bytes of `x` in the byte order of the target.
#[verifier::external_body]
fn u64_native_bytes(x: u64) -> (r: Vec<u8>)
    ensures
        r@ == native_bytes(x as nat, 8),
{
    x.to_ne_bytes().to_vec()
}

/// Relies on `u128::to_ne_bytes`: the bytes of `x` in the byte order of the target.
#[verifier::external_body]
fn u128_native_bytes(x: u128) -> (r: Vec<u8>)
    ensures
        r@ == native_bytes(x as nat, 16),
{
    x.to_ne_bytes().to_vec()
}

/// Relies on `usize::to_ne_bytes`: the bytes of `x` in the byte order of the target.
#[verifier::external_body]
fn usize_native_bytes(x: usize) -> (r: Vec<u8>)
    ensures
        r@ == native_bytes(x as nat, word_bytes()),
{
    x.to_ne_bytes().to_vec()
}

/// Appends the bytes of `bytes` to `sink`.
fn write_bytes(bytes: &[u8], sink: &mut Vec<u8>)
    ensures
        appended(old(sink)@, final(sink)@),
        added(old(sink)@, final(sink)@) == bytes@,
{
    write_plain_slice(bytes, sink);
    proof {
        lemma_plain_concat_bytes(bytes@);
    }
}

impl PlainData for u16 {
    open spec fn plain_bytes(&self) -> Seq<u8> {
        native_bytes((*self) as nat, 2)
    }

    fn write_plain(&self, sink: &mut Vec<u8>) {
        let bytes = u16_native_bytes(*self);
        write_bytes(bytes.as_slice(), sink)
    }
}

impl PlainData for u32 {
    open spec fn plain_bytes(&self) -> Seq<u8> {
        native_bytes((*self) as nat, 4)
    }

    fn write_plain(&self, sink: &mut Vec<u8>) {
        let bytes = u32_native_bytes(*self);
        write_bytes(bytes.as_slice(), sink)
    }
}

impl PlainData for u64 {
    open spec fn plain_bytes(&self) -> Seq<u8> {
        native_bytes((*self) as nat, 8)
    }

    fn write_plain(&self, sink: &mut Vec<u8>) {
        let bytes = u64_native_bytes(*self);
        write_bytes(bytes.as_slice(), sink)
    }
}

impl PlainData for u128 {
    open spec fn plain_bytes(&self) -> Seq<u8> {
        native_bytes((*self) as nat, 16)
    }

    fn write_plain(&self, sink: &mut Vec<u8>) {
        let bytes = u128_native_bytes(*self);
        write_bytes(bytes.as_slice(), sink)
    }
}

impl PlainData for usize {
    open spec fn plain_bytes(&self) -> Seq<u8> {
        native_bytes((*self) as nat, word_bytes())
    }

    fn write_plain(&self, sink: &mut Vec<u8>) {
        let bytes = usize_native_bytes(*self);
        write_bytes(bytes.as_slice(), sink)
    }
}

impl PlainData for i16 {
    open spec fn plain_bytes(&self) -> Seq<u8> {
        native_bytes((*self as u16) as nat, 2)
    }

    fn write_plain(&self, sink: &mut Vec<u8>) {
        let bytes = u16_native_bytes(*self as u16);
        write_bytes(bytes.as_slice(), sink)
    }
}

impl PlainData for i32 {
    open spec fn plain_bytes(&self) -> Seq<u8> {
        native_bytes((*self as u32) as nat, 4)
    }

    fn write_plain(&self, sink: &mut Vec<u8>) {
        let bytes = u32_native_bytes(*self as u32);
        write_bytes(bytes.as_slice(), sink)
    }
}

impl PlainData for i64 {
    open spec fn plain_bytes(&self) -> Seq<u8> {
        native_bytes((*self as u64) as nat, 8)
    }

    fn write_plain(&self, sink: &mut Vec<u8>) {
        let bytes = u64_native_bytes(*self as u64);
        write_bytes(bytes.as_slice(), sink)
    }
}

impl PlainData for i128 {
    open spec fn plain_bytes(&self) -> Seq<u8> {
        native_bytes((*self as u128) as nat, 16)
    }

    fn write_plain(&self, sink: &mut Vec<u8>) {
        let bytes = u128_native_bytes(*self as u128);
        write_bytes(bytes.as_slice(), sink)
    }
}

impl PlainData for isize {
    open spec fn plain_bytes(&self) -> Seq<u8> {
        native_bytes((*self as usize) as nat, word_bytes())
    }

    fn write_plain(&self, sink: &mut Vec<u8>) {
        let bytes = usize_native_bytes(*self as usize);
        write_bytes(bytes.as_slice(), sink)
    }
}

impl PlainData for char {
    open spec fn plain_bytes(&self) -> Seq<u8> {
        native_bytes((*self as u32) as nat, 4)
    }

    fn write_plain(&self, sink: &mut Vec<u8>) {
        let bytes = u32_native_bytes(*self as u32);
        write_bytes(bytes.as_slice(), sink)
    }
}

impl PlainData for u8 {
    open spec fn plain_bytes(&self) -> Seq<u8> {
        seq![*self]
    }

    fn write_plain(&self, sink: &mut Vec<u8>) {
        write_byte(*self, sink)
    }
}

impl PlainData for i8 {
    open spec fn plain_bytes(&self) -> Seq<u8> {
        seq![*self as u8]
    }

    fn write_plain(&self, sink: &mut Vec<u8>) {
        write_byte(*self as u8, sink)
    }
}

impl PlainData for bool {
    open spec fn plain_bytes(&self) -> Seq<u8> {
        seq![if *self { 1u8 } else { 0u8 }]
    }

    fn write_plain(&self, sink: &mut Vec<u8>) {
        write_byte(if *self { 1u8 } else { 0u8 }, sink)
    }
}

impl<T: PlainData, const N: usize> PlainData for [T; N] {
    open spec fn plain_bytes(&self) -> Seq<u8> {
        plain_concat(self@)
    }

    fn write_plain(&self, sink: &mut Vec<u8>) {
        write_plain_slice(self.as_slice(), sink)
    }
}

impl<'a, T: PlainData> WriteInto for Plain<&'a T> {
    type Output = ();

    open spec fn ready(&self) -> bool {
        true
    }

    open spec fn writes(&self, bytes: Seq<u8>, out: ()) -> bool {
        bytes == self.0.plain_bytes()
    }

    fn write_into(self, sink: &mut Vec<u8>) {
        self.0.write_plain(sink)
    }
}

impl<'a, T: PlainData> WriteInto for Plain<&'a [T]> {
    type Output = ();

    open spec fn ready(&self) -> bool {
        true
    }

    open spec fn writes(&self, bytes: Seq<u8>, out: ()) -> bool {
        bytes == plain_concat(self.0@)
    }

    fn write_into(self, sink: &mut Vec<u8>) {
        write_plain_slice(self.0, sink)
    }
}

impl<'a> WriteInto for Plain<&'a str> {
    type Output = ();

    open spec fn ready(&self) -> bool {
        true
    }

    open spec fn writes(&self, bytes: Seq<u8>, out: ()) -> bool {
        bytes == self.0.spec_bytes()
    }

    fn write_into(self, sink: &mut Vec<u8>) {
        let bytes = self.0.as_bytes();
        let ghost start = sink@;
        let mut i: usize = 0;
        assert(sink@.subrange(0, start.len() as int) =~= start);
        while i < bytes.len()
            invariant
                start == old(sink)@,
                i <= bytes@.len(),
                sink@ == start + bytes@.take(i as int),
            decreases bytes@.len() - i,
        {
            sink.push(bytes[i]);
            assert(bytes@.take(i + 1) =~= bytes@.take(i as int).push(bytes@[i as int]));
            i = i + 1;
        }
        assert(bytes@.take(i as int) =~= bytes@);
        assert(added(start, sink@) =~= bytes@);
        assert(sink@.subrange(0, start.len() as int) =~= start);
    }
}

impl WriteInto for Plain<u8> {
    type Output = ();

    open spec fn ready(&self) -> bool {
        true
    }

    open spec fn writes(&self, bytes: Seq<u8>, out: ()) -> bool {
        bytes == self.0.plain_bytes()
    }

    fn write_into(self, sink: &mut Vec<u8>) {
        self.0.write_plain(sink)
    }
}

impl WriteInto for Plain<i8> {
    type Output = ();

    open spec fn ready(&self) -> bool {
        true
    }

    open spec fn writes(&self, bytes: Seq<u8>, out: ()) -> bool {
        bytes == self.0.plain_bytes()
    }

    fn write_into(self, sink: &mut Vec<u8>) {
        self.0.write_plain(sink)
    }
}

impl WriteInto for Plain<bool> {
    type Output = ();

    open spec fn ready(&self) -> bool {
        true
    }

    open spec fn writes(&self, bytes: Seq<u8>, out: ()) -> bool {
        bytes == self.0.plain_bytes()
    }

    fn write_into(self, sink: &mut Vec<u8>) {
        self.0.write_plain(sink)
    }
}

impl WriteInto for Plain<u16> {
    type Output = ();

    open spec fn ready(&self) -> bool {
        true
    }

    open spec fn writes(&self, bytes: Seq<u8>, out: ()) -> bool {
        bytes == self.0.plain_bytes()
    }

    fn write_into(self, sink: &mut Vec<u8>) {
        self.0.write_plain(sink)
    }
}

impl WriteInto for Plain<u32> {
    type Output = ();

    open spec fn ready(&self) -> bool {
        true
    }

    open spec fn writes(&self, bytes: Seq<u8>, out: ()) -> bool {
        bytes == self.0.plain_bytes()
    }

    fn write_into(self, sink: &mut Vec<u8>) {
        self.0.write_plain(sink)
    }
}

impl WriteInto for Plain<u64> {
    type Output = ();

    open spec fn ready(&self) -> bool {
        true
    }

    open spec fn writes(&self, bytes: Seq<u8>, out: ()) -> bool {
        bytes == self.0.plain_bytes()
    }

    fn write_into(self, sink: &mut Vec<u8>) {
        self.0.write_plain(sink)
    }
}

impl WriteInto for Plain<u128> {
    type Output = ();

    open spec fn ready(&self) -> bool {
        true
    }

    open spec fn writes(&self, bytes: Seq<u8>, out: ()) -> bool {
        bytes == self.0.plain_bytes()
    }

    fn write_into(self, sink: &mut Vec<u8>) {
        self.0.write_plain(sink)
    }
}

impl WriteInto for Plain<usize> {
    type Output = ();

    open spec fn ready(&self) -> bool {
        true
    }

    open spec fn writes(&self, bytes: Seq<u8>, out: ()) -> bool {
        bytes == self.0.plain_bytes()
    }

    fn write_into(self, sink: &mut Vec<u8>) {
        self.0.write_plain(sink)
    }
}

impl WriteInto for Plain<i16> {
    type Output = ();

    open spec fn ready(&self) -> bool {
        true
    }

    open spec fn writes(&self, bytes: Seq<u8>, out: ()) -> bool {
        bytes == self.0.plain_bytes()
    }

    fn write_into(self, sink: &mut Vec<u8>) {
        self.0.write_plain(sink)
    }
}

impl WriteInto for Plain<i32> {
    type Output = ();

    open spec fn ready(&self) -> bool {
        true
    }

    open spec fn writes(&self, bytes: Seq<u8>, out: ()) -> bool {
        bytes == self.0.plain_bytes()
    }

    fn write_into(self, sink: &mut Vec<u8>) {
        self.0.write_plain(sink)
    }
}

impl WriteInto for Plain<i64> {
    type Output = ();

    open spec fn ready(&self) -> bool {
        true
    }

    open spec fn writes(&self, bytes: Seq<u8>, out: ()) -> bool {
        bytes == self.0.plain_bytes()
    }

    fn write_into(self, sink: &mut Vec<u8>) {
        self.0.write_plain(sink)
    }
}

impl WriteInto for Plain<i128> {
    type Output = ();

    open spec fn ready(&self) -> bool {
        true
    }

    open spec fn writes(&self, bytes: Seq<u8>, out: ()) -> bool {
        bytes == self.0.plain_bytes()
    }

    fn write_into(self, sink: &mut Vec<u8>) {
        self.0.write_plain(sink)
    }
}

impl WriteInto for Plain<isize> {
    type Output = ();

    open spec fn ready(&self) -> bool {
        true
    }

    open spec fn writes(&self, bytes: Seq<u8>, out: ()) -> bool {
        bytes == self.0.plain_bytes()
    }

    fn write_into(self, sink: &mut Vec<u8>) {
        self.0.write_plain(sink)
    }
}

impl WriteInto for Plain<char> {
    type Output = ();

    open spec fn ready(&self) -> bool {
        true
    }

    open spec fn writes(&self, bytes: Seq<u8>, out: ()) -> bool {
        bytes == self.0.plain_bytes()
    }

    fn write_into(self, sink: &mut Vec<u8>) {
        self.0.write_plain(sink)
    }
}

} // verus!
