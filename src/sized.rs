//! Size-prefixed framing: a length field, then the payload it measures.
use vstd::prelude::*;

use crate::{added, appended, lemma_plain_concat_bytes, Plain, WriteInto};

verus! {

/// Writes a length field made from the number of bytes that the payload encodes to, then
/// those bytes. The payload is first written into a scratch buffer to learn that number.
#[verifier::reject_recursive_types(S)]
pub struct Sized<T, S, F>(pub F, pub T) where F: FnOnce(usize) -> S;

impl<T: WriteInto, S: WriteInto, F: FnOnce(usize) -> S> WriteInto for Sized<T, S, F> {
    type Output = usize;

    open spec fn ready(&self) -> bool {
        &&& self.1.ready()
        &&& forall|n: usize| #[trigger] self.0.requires((n,))
        &&& forall|n: usize, s: S| #[trigger] self.0.ensures((n,), s) ==> s.ready()
    }

    open spec fn writes(&self, bytes: Seq<u8>, out: usize) -> bool {
        &&& out <= bytes.len()
        &&& exists|field: S, field_out: S::Output, payload_out: T::Output|
            {
                &&& self.0.ensures((out,), field)
                &&& #[trigger] field.writes(bytes.take(bytes.len() - out), field_out)
                &&& #[trigger] self.1.writes(bytes.skip(bytes.len() - out), payload_out)
            }
    }

    fn write_into(self, sink: &mut Vec<u8>) -> (out: usize) {
        let Sized(make_field, payload) = self;
        let mut buffer: Vec<u8> = Vec::new();
        let payload_out = payload.write_into(&mut buffer);
        assert(buffer@.subrange(0, 0) =~= Seq::<u8>::empty());
        assert(added(Seq::<u8>::empty(), buffer@) =~= buffer@);
        let written = buffer.len();
        let field = make_field(written);
        let ghost start = sink@;
        let field_out = field.write_into(sink);
        let ghost middle = sink@;
        Plain(buffer.as_slice()).write_into(sink);
        proof {
            lemma_plain_concat_bytes(buffer@);
            let whole = added(start, sink@);
            let k = added(start, middle).len() as int;
            assert(whole.len() - written == k);
            assert(whole.take(k) =~= added(start, middle));
            assert(whole.skip(k) =~= added(middle, sink@));
            assert(field.writes(whole.take(whole.len() - written), field_out));
            assert(payload.writes(whole.skip(whole.len() - written), payload_out));
            assert(sink@.subrange(0, start.len() as int) =~= middle.subrange(
                0,
                start.len() as int,
            ));
        }
        written
    }
}

} // verus!
