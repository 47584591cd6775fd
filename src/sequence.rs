//! Homogeneous sequences: each item written in turn, optionally after a count field.
use vstd::prelude::*;

use crate::{added, appended, WriteInto};

verus! {

/// Writes each item of a sequence in order, with no count or separator.
pub struct Sequence<T>(pub Vec<T>);

/// Writes a count field made from the number of items, then each item in order.
#[verifier::reject_recursive_types(S)]
pub struct SizedSequence<T, S, F>(pub F, pub Vec<T>) where F: FnOnce(usize) -> S;

/// `bytes` splits, in order, into a write of each item of `items`.
pub open spec fn writes_each<T: WriteInto>(items: Seq<T>, bytes: Seq<u8>) -> bool
    decreases items.len(),
{
    if items.len() == 0 {
        bytes.len() == 0
    } else {
        exists|k: int, out: T::Output|
            0 <= k <= bytes.len() && writes_each(items.drop_last(), bytes.take(k))
                && #[trigger] items.last().writes(bytes.skip(k), out)
    }
}

/// Every item of `items` can be written.
pub open spec fn all_ready<T: WriteInto>(items: Seq<T>) -> bool {
    forall|i: int| 0 <= i < items.len() ==> #[trigger] items[i].ready()
}

/// Appends each item of `items`, in order, to `sink`.
fn write_each<T: WriteInto>(items: Vec<T>, sink: &mut Vec<u8>)
    requires
        all_ready(items@),
    ensures
        appended(old(sink)@, final(sink)@),
        writes_each(items@, added(old(sink)@, final(sink)@)),
{
    let ghost all = items@;
    let ghost n = all.len();
    let total = items.len();
    let mut items = items;
    let mut stack: Vec<T> = Vec::new();
    while items.len() > 0
        invariant
            n == all.len(),
            all_ready(all),
            items@ == all.take(items@.len() as int),
            items@.len() <= n,
            stack@.len() == n - items@.len(),
            forall|j: int| 0 <= j < stack@.len() ==> #[trigger] stack@[j] == all[n - 1 - j],
        decreases items@.len(),
    {
        let ghost prev = items@;
        let item = items.pop().unwrap();
        stack.push(item);
        assert(items@ =~= all.take(items@.len() as int));
        assert(item == all[n - 1 - (stack@.len() - 1)]);
    }
    let ghost start = sink@;
    assert(sink@.subrange(0, start.len() as int) =~= start);
    assert(added(start, sink@) =~= Seq::<u8>::empty());
    assert(all.take(0) =~= Seq::<T>::empty());
    let mut i: usize = 0;
    while stack.len() > 0
        invariant
            start == old(sink)@,
            n == all.len(),
            n == total,
            all_ready(all),
            i + stack@.len() == n,
            forall|j: int| 0 <= j < stack@.len() ==> #[trigger] stack@[j] == all[n - 1 - j],
            appended(start, sink@),
            writes_each(all.take(i as int), added(start, sink@)),
        decreases stack@.len(),
    {
        let ghost before = sink@;
        let item = stack.pop().unwrap();
        assert(item == all[i as int]);
        let out = item.write_into(sink);
        proof {
            let whole = added(start, sink@);
            let k = added(start, before).len() as int;
            assert(whole.take(k) =~= added(start, before));
            assert(whole.skip(k) =~= added(before, sink@));
            assert(all.take(i + 1).drop_last() =~= all.take(i as int));
            assert(all.take(i + 1).last() == all[i as int]);
            assert(all.take(i + 1).last().writes(whole.skip(k), out));
            assert(sink@.subrange(0, start.len() as int) =~= before.subrange(
                0,
                start.len() as int,
            ));
        }
        i = i + 1;
    }
    assert(all.take(n as int) =~= all);
}

impl<T: WriteInto> WriteInto for Sequence<T> {
    type Output = usize;

    open spec fn ready(&self) -> bool {
        all_ready(self.0@)
    }

    open spec fn writes(&self, bytes: Seq<u8>, out: usize) -> bool {
        out == self.0@.len() && writes_each(self.0@, bytes)
    }

    fn write_into(self, sink: &mut Vec<u8>) -> (out: usize) {
        let count = self.0.len();
        write_each(self.0, sink);
        count
    }
}

impl<T: WriteInto, S: WriteInto, F: FnOnce(usize) -> S> WriteInto for SizedSequence<T, S, F> {
    type Output = usize;

    open spec fn ready(&self) -> bool {
        &&& all_ready(self.1@)
        &&& self.0.requires((self.1@.len() as usize,))
        &&& forall|s: S| self.0.ensures((self.1@.len() as usize,), s) ==> s.ready()
    }

    open spec fn writes(&self, bytes: Seq<u8>, out: usize) -> bool {
        &&& out == self.1@.len()
        &&& exists|k: int, field: S, field_out: S::Output|
            {
                &&& 0 <= k <= bytes.len()
                &&& self.0.ensures((out,), field)
                &&& #[trigger] field.writes(bytes.take(k), field_out)
                &&& writes_each(self.1@, bytes.skip(k))
            }
    }

    fn write_into(self, sink: &mut Vec<u8>) -> (out: usize) {
        let SizedSequence(make_field, items) = self;
        let count = items.len();
        let field = make_field(count);
        let ghost start = sink@;
        let field_out = field.write_into(sink);
        let ghost middle = sink@;
        write_each(items, sink);
        proof {
            let whole = added(start, sink@);
            let k = added(start, middle).len() as int;
            assert(whole.take(k) =~= added(start, middle));
            assert(whole.skip(k) =~= added(middle, sink@));
            assert(field.writes(whole.take(k), field_out));
            assert(sink@.subrange(0, start.len() as int) =~= middle.subrange(
                0,
                start.len() as int,
            ));
        }
        count
    }
}

} // verus!
