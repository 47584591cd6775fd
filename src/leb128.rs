//! LEB128: little-endian base-128 variable-length integers, unsigned and signed.
use vstd::prelude::*;

use crate::{added, appended, WriteInto};

verus! {

/// Writes an unsigned integer in LEB128 format.
pub struct Uleb128<T>(pub T);

/// Writes a signed integer in LEB128 format.
pub struct Sleb128<T>(pub T);

/// The unsigned LEB128 groups of `n`: seven payload bits per byte, lowest first, with the
/// high (continuation) bit set on every byte but the last.
pub open spec fn uleb128_bytes(n: nat) -> Seq<u8>
    decreases n,
{
    if n < 128 {
        seq![n as u8]
    } else {
        seq![(n % 128 + 128) as u8] + uleb128_bytes(n / 128)
    }
}

/// The number that unsigned LEB128 `bytes` stand for.
pub open spec fn uleb128_value(bytes: Seq<u8>) -> nat
    decreases bytes.len(),
{
    if bytes.len() == 0 {
        0
    } else {
        (bytes[0] % 128) as nat + 128 * uleb128_value(bytes.drop_first())
    }
}

/// The signed LEB128 groups of `n`: groups are emitted until the rest of the value is what
/// sign-extending the last group gives back.
pub open spec fn sleb128_bytes(n: int) -> Seq<u8>
    decreases (if n < 0 { -n } else { n }),
{
    if -64 <= n < 64 {
        seq![(n % 128) as u8]
    } else {
        seq![(n % 128 + 128) as u8] + sleb128_bytes(n / 128)
    }
}

/// The number that signed LEB128 `bytes` stand for: the last group is sign-extended.
pub open spec fn sleb128_value(bytes: Seq<u8>) -> int
    decreases bytes.len(),
{
    if bytes.len() == 0 {
        0
    } else if bytes.len() == 1 {
        let group = bytes[0] % 128;
        if group >= 64 {
            group - 128
        } else {
            group as int
        }
    } else {
        (bytes[0] % 128) + 128 * sleb128_value(bytes.drop_first())
    }
}

/// `bytes` is a run of groups that ends exactly at its first byte without a continuation bit.
pub open spec fn leb128_framed(bytes: Seq<u8>) -> bool {
    &&& bytes.len() >= 1
    &&& forall|i: int| 0 <= i < bytes.len() - 1 ==> #[trigger] bytes[i] >= 128
    &&& bytes.last() < 128
}

/// `128` to the power `k`.
pub open spec fn pow128(k: nat) -> nat
    decreases k,
{
    if k == 0 {
        1
    } else {
        128 * pow128((k - 1) as nat)
    }
}

/// Unsigned LEB128 is minimal: `n` takes at most `k` groups exactly when it is below `128^k`.
pub proof fn lemma_uleb128_len(n: nat, k: nat)
    requires
        k >= 1,
    ensures
        uleb128_bytes(n).len() <= k <==> n < pow128(k),
    decreases k,
{
    reveal_with_fuel(pow128, 2);
    if n >= 128 {
        assert(uleb128_bytes(n / 128).len() >= 1);
    }
    if k > 1 {
        lemma_pow128_grows((k - 1) as nat);
        if n >= 128 {
            lemma_uleb128_len(n / 128, (k - 1) as nat);
            let p = pow128((k - 1) as nat);
            assert(n / 128 < p <==> n < 128 * p) by (nonlinear_arith);
        }
    }
}

/// The powers of `128` that bound the groups of the integer widths.
pub proof fn lemma_pow128_values()
    ensures
        pow128(1) == 0x80,
        pow128(2) == 0x4000,
        pow128(4) == 0x1000_0000,
        pow128(9) == 0x8000_0000_0000_0000,
        pow128(18) == 0x4000_0000_0000_0000_0000_0000_0000_0000,
        pow128(3) == 0x20_0000,
        pow128(5) == 0x8_0000_0000,
        pow128(10) == 0x40_0000_0000_0000_0000,
        pow128(19) == 0x20_0000_0000_0000_0000_0000_0000_0000_0000,
{
    assert(pow128(0) == 1);
    assert(pow128(1) == 128);
    assert(pow128(2) == 16384);
    assert(pow128(3) == 2097152);
    assert(pow128(4) == 268435456);
    assert(pow128(5) == 34359738368);
    assert(pow128(6) == 4398046511104);
    assert(pow128(7) == 562949953421312);
    assert(pow128(8) == 72057594037927936);
    assert(pow128(9) == 9223372036854775808);
    assert(pow128(10) == 1180591620717411303424);
    assert(pow128(11) == 151115727451828646838272);
    assert(pow128(12) == 19342813113834066795298816);
    assert(pow128(13) == 2475880078570760549798248448);
    assert(pow128(14) == 316912650057057350374175801344);
    assert(pow128(15) == 40564819207303340847894502572032);
    assert(pow128(16) == 5192296858534827628530496329220096);
    assert(pow128(17) == 664613997892457936451903530140172288);
    assert(pow128(18) == 85070591730234615865843651857942052864);
    assert(pow128(19) == 10889035741470030830827987437816582766592);
}

proof fn lemma_pow128_grows(k: nat)
    ensures
        pow128(k) >= 1,
    decreases k,
{
    if k > 0 {
        lemma_pow128_grows((k - 1) as nat);
    }
}

/// Appends the unsigned LEB128 bytes of `value` to `sink` and returns their count.
fn write_uleb128(value: u128, sink: &mut Vec<u8>) -> (written: usize)
    ensures
        appended(old(sink)@, final(sink)@),
        added(old(sink)@, final(sink)@) == uleb128_bytes(value as nat),
        written == uleb128_bytes(value as nat).len(),
{
    let ghost start = sink@;
    proof {
        lemma_uleb128_len(value as nat, 19);
        lemma_pow128_values();
    }
    let mut rest: u128 = value;
    let mut written: usize = 0;
    loop
        invariant
            start == old(sink)@,
            start + uleb128_bytes(value as nat) == sink@ + uleb128_bytes(rest as nat),
            sink@.len() == start.len() + written,
            written + uleb128_bytes(rest as nat).len() == uleb128_bytes(value as nat).len(),
            uleb128_bytes(value as nat).len() <= 19,
        decreases rest,
    {
        let group = (rest % 128) as u8;
        if rest < 128 {
            let ghost before = sink@;
            sink.push(group);
            proof {
                assert(sink@ =~= before + uleb128_bytes(rest as nat));
                assert(start + uleb128_bytes(value as nat) == sink@);
                assert(added(start, sink@) =~= uleb128_bytes(value as nat));
                assert(sink@.subrange(0, start.len() as int) =~= start);
            }
            return written + 1;
        }
        let ghost before = sink@;
        sink.push(group + 128);
        rest = rest / 128;
        written = written + 1;
        proof {
            assert(sink@ + uleb128_bytes(rest as nat) =~= before + uleb128_bytes(rest as nat * 128 + group as nat));
        }
    }
}

/// Signed LEB128 is minimal: `n` takes at most `k` groups exactly when it lies in
/// `[-64 * 128^(k-1), 64 * 128^(k-1))`, the range that `k` groups reach by sign extension.
pub proof fn lemma_sleb128_len(n: int, k: nat)
    requires
        k >= 1,
    ensures
        sleb128_bytes(n).len() <= k <==> -64 * pow128((k - 1) as nat) <= n < 64 * pow128(
            (k - 1) as nat,
        ),
    decreases k,
{
    reveal_with_fuel(pow128, 2);
    if !(-64 <= n < 64) {
        assert(sleb128_bytes(n / 128).len() >= 1);
    }
    if k > 1 {
        lemma_pow128_grows((k - 2) as nat);
        let p = pow128((k - 2) as nat);
        assert(pow128((k - 1) as nat) == 128 * p);
        if !(-64 <= n < 64) {
            lemma_sleb128_len(n / 128, (k - 1) as nat);
            assert(-64 * p <= n / 128 < 64 * p <==> -64 * (128 * p) <= n < 64 * (128 * p))
                by (nonlinear_arith);
        } else {
            assert(64 <= 64 * (128 * p)) by (nonlinear_arith)
                requires
                    p >= 1,
            ;
        }
    }
}

/// Decoding the unsigned LEB128 bytes of `n` gives `n` back, and the bytes form one framed run.
pub proof fn lemma_uleb128_round_trip(n: nat)
    ensures
        uleb128_value(uleb128_bytes(n)) == n,
        leb128_framed(uleb128_bytes(n)),
    decreases n,
{
    let b = uleb128_bytes(n);
    if n < 128 {
        assert(b.drop_first() =~= Seq::<u8>::empty());
        assert(uleb128_value(b.drop_first()) == 0);
    } else {
        lemma_uleb128_round_trip(n / 128);
        let rest = uleb128_bytes(n / 128);
        assert(b.drop_first() =~= rest);
        assert(b[0] % 128 == n % 128);
        assert forall|i: int| 0 <= i < b.len() - 1 implies #[trigger] b[i] >= 128 by {
            if i > 0 {
                assert(b[i] == rest[i - 1]);
            }
        }
    }
}

/// Decoding the signed LEB128 bytes of `n` gives `n` back, and the bytes form one framed run.
pub proof fn lemma_sleb128_round_trip(n: int)
    ensures
        sleb128_value(sleb128_bytes(n)) == n,
        leb128_framed(sleb128_bytes(n)),
    decreases (if n < 0 { -n } else { n }),
{
    if !(-64 <= n < 64) {
        lemma_sleb128_round_trip(n / 128);
        let b = sleb128_bytes(n);
        let rest = sleb128_bytes(n / 128);
        assert(b.drop_first() =~= rest);
        assert forall|i: int| 0 <= i < b.len() - 1 implies #[trigger] b[i] >= 128 by {
            if i > 0 {
                assert(b[i] == rest[i - 1]);
            }
        }
    }
}

/// Appends the signed LEB128 bytes of `value` to `sink` and returns their count.
fn write_sleb128(value: i128, sink: &mut Vec<u8>) -> (written: usize)
    ensures
        appended(old(sink)@, final(sink)@),
        added(old(sink)@, final(sink)@) == sleb128_bytes(value as int),
        written == sleb128_bytes(value as int).len(),
{
    let ghost start = sink@;
    proof {
        lemma_sleb128_len(value as int, 19);
        lemma_pow128_values();
    }
    let mut rest: i128 = value;
    let mut written: usize = 0;
    loop
        invariant
            start == old(sink)@,
            start + sleb128_bytes(value as int) == sink@ + sleb128_bytes(rest as int),
            sink@.len() == start.len() + written,
            written + sleb128_bytes(rest as int).len() == sleb128_bytes(value as int).len(),
            sleb128_bytes(value as int).len() <= 19,
        decreases (if rest < 0 { -(rest as int) } else { rest as int }),
    {
        let group: u8 = match rest.checked_rem_euclid(128) {
            Some(g) => g as u8,
            None => 0,
        };
        if -64 <= rest && rest < 64 {
            let ghost before = sink@;
            sink.push(group);
            proof {
                assert(sink@ =~= before + sleb128_bytes(rest as int));
                assert(added(start, sink@) =~= sleb128_bytes(value as int));
                assert(sink@.subrange(0, start.len() as int) =~= start);
            }
            return written + 1;
        }
        let ghost before = sink@;
        let ghost old_rest = rest as int;
        sink.push(group + 128);
        rest = match rest.checked_div_euclid(128) {
            Some(q) => q,
            None => 0,
        };
        written = written + 1;
        proof {
            assert(sink@ + sleb128_bytes(rest as int) =~= before + sleb128_bytes(old_rest));
        }
    }
}


/// The fewest chunks of `chunk_size` bits that hold `bits` bits.
pub fn count_bits_in_chunks(bits: usize, chunk_size: usize) -> (chunks: usize)
    requires
        chunk_size > 0,
    ensures
        chunks * chunk_size >= bits,
        (chunks - 1) * chunk_size < bits,
{
    let whole = bits / chunk_size;
    let remaining = bits % chunk_size;
    proof {
        assert(whole * chunk_size + remaining == bits && 0 <= remaining < chunk_size)
            by (nonlinear_arith)
            requires
                whole == bits / chunk_size,
                remaining == bits % chunk_size,
                chunk_size > 0,
        ;
    }
    if remaining != 0 {
        proof {
            assert(whole < usize::MAX) by (nonlinear_arith)
                requires
                    whole * chunk_size + remaining == bits,
                    remaining > 0,
                    remaining < chunk_size,
                    bits <= usize::MAX,
            ;
            assert((whole + 1) * chunk_size >= bits && whole * chunk_size < bits)
                by (nonlinear_arith)
                requires
                    whole * chunk_size + remaining == bits,
                    remaining > 0,
                    remaining < chunk_size,
            ;
        }
        whole + 1
    } else {
        proof {
            assert((whole - 1) * chunk_size < bits) by (nonlinear_arith)
                requires
                    whole * chunk_size == bits,
                    chunk_size > 0,
            ;
        }
        whole
    }
}

/// The most bytes that LEB128 takes for an integer of `bytes` bytes: its bits rounded up to
/// whole seven-bit groups, each group carried in one byte.
pub open spec fn max_leb128_size_spec(bytes: nat) -> nat {
    ((8 * bytes + 6) / 7) as nat
}

/// The most bytes that LEB128 takes for an integer of `bytes` bytes.
pub fn max_leb128_size(bytes: usize) -> (size: usize)
    requires
        bytes * 8 <= usize::MAX,
        (bytes * 8 + 6) / 7 * 8 <= usize::MAX,
    ensures
        size == max_leb128_size_spec(bytes as nat),
{
    let bits = bytes * 8;
    let septets = count_bits_in_chunks(bits, 7);
    let bits_for_septets = septets * 7;
    let bits_for_continuation_bits = septets;
    count_bits_in_chunks(bits_for_septets + bits_for_continuation_bits, 8)
}

/// `256` to the power `k`: one more than the largest value of `k` bytes.
pub open spec fn pow256(k: nat) -> nat
    decreases k,
{
    if k == 0 {
        1
    } else {
        256 * pow256((k - 1) as nat)
    }
}

/// `2` to the power `e`.
pub open spec fn two_to(e: nat) -> nat
    decreases e,
{
    if e == 0 {
        1
    } else {
        2 * two_to((e - 1) as nat)
    }
}

proof fn lemma_two_to_grows(a: nat, b: nat)
    requires
        a <= b,
    ensures
        1 <= two_to(a) <= two_to(b),
    decreases b,
{
    if b > a {
        lemma_two_to_grows(a, (b - 1) as nat);
    } else if a > 0 {
        lemma_two_to_grows((a - 1) as nat, (a - 1) as nat);
    }
}

proof fn lemma_pow256_bits(k: nat)
    ensures
        pow256(k) == two_to(8 * k),
    decreases k,
{
    if k > 0 {
        lemma_pow256_bits((k - 1) as nat);
        reveal_with_fuel(two_to, 8);
        assert(8 * k == 8 * (k - 1) + 8);
    }
}

proof fn lemma_pow128_bits(k: nat)
    ensures
        pow128(k) == two_to(7 * k),
    decreases k,
{
    if k > 0 {
        lemma_pow128_bits((k - 1) as nat);
        reveal_with_fuel(two_to, 7);
        assert(7 * k == 7 * (k - 1) + 7);
    }
}

/// Every unsigned integer of `bytes` bytes takes between one and `max_leb128_size(bytes)`
/// bytes of unsigned LEB128.
pub proof fn lemma_uleb128_fits(n: nat, bytes: nat)
    requires
        bytes >= 1,
        n < pow256(bytes),
    ensures
        1 <= uleb128_bytes(n).len() <= max_leb128_size_spec(bytes),
{
    let c = max_leb128_size_spec(bytes);
    assert(uleb128_bytes(n).len() >= 1);
    lemma_pow256_bits(bytes);
    lemma_pow128_bits(c);
    lemma_two_to_grows(8 * bytes, 7 * c);
    lemma_uleb128_len(n, c);
}

/// Every signed integer of `bytes` bytes takes between one and `max_leb128_size(bytes)`
/// bytes of signed LEB128.
pub proof fn lemma_sleb128_fits(n: int, bytes: nat)
    requires
        bytes >= 1,
        -(pow256(bytes) as int) <= 2 * n < pow256(bytes),
    ensures
        1 <= sleb128_bytes(n).len() <= max_leb128_size_spec(bytes),
{
    let c = max_leb128_size_spec(bytes);
    assert(sleb128_bytes(n).len() >= 1);
    lemma_pow256_bits(bytes);
    lemma_pow128_bits((c - 1) as nat);
    lemma_two_to_grows((8 * bytes - 1) as nat, (7 * (c - 1) + 6) as nat);
    reveal_with_fuel(two_to, 7);
    assert(two_to(8 * bytes) == 2 * two_to((8 * bytes - 1) as nat));
    assert(two_to((7 * (c - 1) + 6) as nat) == 64 * two_to((7 * (c - 1)) as nat)) by {
        lemma_two_to_shift((7 * (c - 1)) as nat);
    }
    lemma_sleb128_len(n, c);
}

proof fn lemma_two_to_shift(e: nat)
    ensures
        two_to(e + 6) == 64 * two_to(e),
{
    reveal_with_fuel(two_to, 7);
}

impl WriteInto for Uleb128<u8> {
    type Output = usize;

    open spec fn ready(&self) -> bool {
        true
    }

    open spec fn writes(&self, bytes: Seq<u8>, out: usize) -> bool {
        bytes == uleb128_bytes(self.0 as nat) && out == bytes.len()
    }

    fn write_into(self, sink: &mut Vec<u8>) -> (out: usize) {
        write_uleb128(self.0 as u128, sink)
    }
}

impl WriteInto for Uleb128<u16> {
    type Output = usize;

    open spec fn ready(&self) -> bool {
        true
    }

    open spec fn writes(&self, bytes: Seq<u8>, out: usize) -> bool {
        bytes == uleb128_bytes(self.0 as nat) && out == bytes.len()
    }

    fn write_into(self, sink: &mut Vec<u8>) -> (out: usize) {
        write_uleb128(self.0 as u128, sink)
    }
}

impl WriteInto for Uleb128<u32> {
    type Output = usize;

    open spec fn ready(&self) -> bool {
        true
    }

    open spec fn writes(&self, bytes: Seq<u8>, out: usize) -> bool {
        bytes == uleb128_bytes(self.0 as nat) && out == bytes.len()
    }

    fn write_into(self, sink: &mut Vec<u8>) -> (out: usize) {
        write_uleb128(self.0 as u128, sink)
    }
}

impl WriteInto for Uleb128<u64> {
    type Output = usize;

    open spec fn ready(&self) -> bool {
        true
    }

    open spec fn writes(&self, bytes: Seq<u8>, out: usize) -> bool {
        bytes == uleb128_bytes(self.0 as nat) && out == bytes.len()
    }

    fn write_into(self, sink: &mut Vec<u8>) -> (out: usize) {
        write_uleb128(self.0 as u128, sink)
    }
}

impl WriteInto for Uleb128<u128> {
    type Output = usize;

    open spec fn ready(&self) -> bool {
        true
    }

    open spec fn writes(&self, bytes: Seq<u8>, out: usize) -> bool {
        bytes == uleb128_bytes(self.0 as nat) && out == bytes.len()
    }

    fn write_into(self, sink: &mut Vec<u8>) -> (out: usize) {
        write_uleb128(self.0 as u128, sink)
    }
}

impl WriteInto for Uleb128<usize> {
    type Output = usize;

    open spec fn ready(&self) -> bool {
        true
    }

    open spec fn writes(&self, bytes: Seq<u8>, out: usize) -> bool {
        bytes == uleb128_bytes(self.0 as nat) && out == bytes.len()
    }

    fn write_into(self, sink: &mut Vec<u8>) -> (out: usize) {
        write_uleb128(self.0 as u128, sink)
    }
}

impl WriteInto for Sleb128<i8> {
    type Output = usize;

    open spec fn ready(&self) -> bool {
        true
    }

    open spec fn writes(&self, bytes: Seq<u8>, out: usize) -> bool {
        bytes == sleb128_bytes(self.0 as int) && out == bytes.len()
    }

    fn write_into(self, sink: &mut Vec<u8>) -> (out: usize) {
        write_sleb128(self.0 as i128, sink)
    }
}

impl WriteInto for Sleb128<i16> {
    type Output = usize;

    open spec fn ready(&self) -> bool {
        true
    }

    open spec fn writes(&self, bytes: Seq<u8>, out: usize) -> bool {
        bytes == sleb128_bytes(self.0 as int) && out == bytes.len()
    }

    fn write_into(self, sink: &mut Vec<u8>) -> (out: usize) {
        write_sleb128(self.0 as i128, sink)
    }
}

impl WriteInto for Sleb128<i32> {
    type Output = usize;

    open spec fn ready(&self) -> bool {
        true
    }

    open spec fn writes(&self, bytes: Seq<u8>, out: usize) -> bool {
        bytes == sleb128_bytes(self.0 as int) && out == bytes.len()
    }

    fn write_into(self, sink: &mut Vec<u8>) -> (out: usize) {
        write_sleb128(self.0 as i128, sink)
    }
}

impl WriteInto for Sleb128<i64> {
    type Output = usize;

    open spec fn ready(&self) -> bool {
        true
    }

    open spec fn writes(&self, bytes: Seq<u8>, out: usize) -> bool {
        bytes == sleb128_bytes(self.0 as int) && out == bytes.len()
    }

    fn write_into(self, sink: &mut Vec<u8>) -> (out: usize) {
        write_sleb128(self.0 as i128, sink)
    }
}

impl WriteInto for Sleb128<i128> {
    type Output = usize;

    open spec fn ready(&self) -> bool {
        true
    }

    open spec fn writes(&self, bytes: Seq<u8>, out: usize) -> bool {
        bytes == sleb128_bytes(self.0 as int) && out == bytes.len()
    }

    fn write_into(self, sink: &mut Vec<u8>) -> (out: usize) {
        write_sleb128(self.0 as i128, sink)
    }
}

impl WriteInto for Sleb128<isize> {
    type Output = usize;

    open spec fn ready(&self) -> bool {
        true
    }

    open spec fn writes(&self, bytes: Seq<u8>, out: usize) -> bool {
        bytes == sleb128_bytes(self.0 as int) && out == bytes.len()
    }

    fn write_into(self, sink: &mut Vec<u8>) -> (out: usize) {
        write_sleb128(self.0 as i128, sink)
    }
}

} // verus!
