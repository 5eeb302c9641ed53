//! Push-based dataflow primitives as explicit state: each combinator holds
//! what it has seen and answers every pushed value, synchronously, with what
//! it emits.
use vstd::prelude::*;

verus! {

/// `combine_latest`: once both sides have produced a value, every new value
/// on either side emits the pair of the latest values.
#[derive(Clone, Copy, Debug)]
pub struct CombineLatest<A, B> {
    pub left: Option<A>,
    pub right: Option<B>,
}

impl<A: Copy, B: Copy> CombineLatest<A, B> {
    pub fn new() -> (r: CombineLatest<A, B>)
        ensures
            r.left is None,
            r.right is None,
    {
        CombineLatest { left: None, right: None }
    }

    /// A value on the left side.
    pub fn push_left(&mut self, a: A) -> (r: Option<(A, B)>)
        ensures
            final(self).left == Some(a),
            final(self).right == old(self).right,
            r == (match old(self).right {
                Some(b) => Some((a, b)),
                None => None,
            }),
    {
        self.left = Some(a);
        match self.right {
            Some(b) => Some((a, b)),
            None => None,
        }
    }

    /// A value on the right side.
    pub fn push_right(&mut self, b: B) -> (r: Option<(A, B)>)
        ensures
            final(self).right == Some(b),
            final(self).left == old(self).left,
            r == (match old(self).left {
                Some(a) => Some((a, b)),
                None => None,
            }),
    {
        self.right = Some(b);
        match self.left {
            Some(a) => Some((a, b)),
            None => None,
        }
    }
}

/// `with_latest_from`: values of the main stream are paired with the latest
/// value of a sampled stream, and dropped until it has produced one.
#[derive(Clone, Copy, Debug)]
pub struct WithLatestFrom<B> {
    pub latest: Option<B>,
}

impl<B: Copy> WithLatestFrom<B> {
    pub fn new() -> (r: WithLatestFrom<B>)
        ensures
            r.latest is None,
    {
        WithLatestFrom { latest: None }
    }

    /// A value on the sampled stream: remembered, nothing emitted.
    pub fn sample(&mut self, b: B)
        ensures
            final(self).latest == Some(b),
    {
        self.latest = Some(b);
    }

    /// A value on the main stream.
    pub fn push<A>(&self, a: A) -> (r: Option<(A, B)>)
        ensures
            r == (match self.latest {
                Some(b) => Some((a, b)),
                None => None,
            }),
    {
        match self.latest {
            Some(b) => Some((a, b)),
            None => None,
        }
    }
}

/// `distinct_until_changed` over integers (an instant, a key, a count): a
/// value equal to the one emitted just before is suppressed.
#[derive(Clone, Copy, Debug)]
pub struct DistinctUntilChanged {
    pub last: Option<i64>,
}

impl DistinctUntilChanged {
    pub fn new() -> (r: DistinctUntilChanged)
        ensures
            r.last is None,
    {
        DistinctUntilChanged { last: None }
    }

    pub fn push(&mut self, v: i64) -> (r: Option<i64>)
        ensures
            r == (if old(self).last == Some(v) {
                None
            } else {
                Some(v)
            }),
            final(self).last == Some(v),
    {
        let repeat = match self.last {
            Some(l) => l == v,
            None => false,
        };
        self.last = Some(v);
        if repeat {
            None
        } else {
            Some(v)
        }
    }
}

/// `merge` of two streams whose values carry their arrival order: one stream
/// in arrival order, each value tagged with its side (`true` for the left).
pub open spec fn merged<T>(left: Seq<(u64, T)>, right: Seq<(u64, T)>) -> Seq<(bool, T)>
    decreases left.len() + right.len(),
{
    if left.len() == 0 && right.len() == 0 {
        Seq::empty()
    } else if right.len() == 0 || (left.len() > 0 && left[0].0 <= right[0].0) {
        seq![(true, left[0].1)] + merged(left.drop_first(), right)
    } else {
        seq![(false, right[0].1)] + merged(left, right.drop_first())
    }
}

/// Interleaves two streams by arrival order; on a tie the left value comes
/// first.
pub fn merge<T: Copy>(left: &Vec<(u64, T)>, right: &Vec<(u64, T)>) -> (r: Vec<(bool, T)>)
    ensures
        r@ == merged(left@, right@),
{
    let mut out: Vec<(bool, T)> = Vec::new();
    let mut i: usize = 0;
    let mut j: usize = 0;
    assert(left@.subrange(0, left@.len() as int) =~= left@);
    assert(right@.subrange(0, right@.len() as int) =~= right@);
    assert(out@ + merged(left@, right@) =~= merged(left@, right@));
    while i < left.len() || j < right.len()
        invariant
            i <= left@.len(),
            j <= right@.len(),
            out@ + merged(left@.subrange(i as int, left@.len() as int), right@.subrange(
                j as int,
                right@.len() as int,
            )) == merged(left@, right@),
        decreases left@.len() + right@.len() - i - j,
    {
        let ghost l = left@.subrange(i as int, left@.len() as int);
        let ghost r = right@.subrange(j as int, right@.len() as int);
        let ghost before = out@;
        if j >= right.len() || (i < left.len() && left[i].0 <= right[j].0) {
            let x = (true, left[i].1);
            out.push(x);
            proof {
                let l2 = left@.subrange(i + 1, left@.len() as int);
                assert(l.drop_first() =~= l2);
                assert(merged(l, r) == seq![x] + merged(l2, r));
                assert(out@ + merged(l2, r) =~= before + (seq![x] + merged(l2, r)));
            }
            i = i + 1;
        } else {
            let x = (false, right[j].1);
            out.push(x);
            proof {
                let r2 = right@.subrange(j + 1, right@.len() as int);
                assert(r.drop_first() =~= r2);
                assert(merged(l, r) == seq![x] + merged(l, r2));
                assert(out@ + merged(l, r2) =~= before + (seq![x] + merged(l, r2)));
            }
            j = j + 1;
        }
    }
    proof {
        let l = left@.subrange(i as int, left@.len() as int);
        let r = right@.subrange(j as int, right@.len() as int);
        assert(l.len() == 0 && r.len() == 0);
        assert(merged(l, r) == Seq::<(bool, T)>::empty());
        assert(out@ + merged(l, r) =~= out@);
    }
    out
}

} // verus!
