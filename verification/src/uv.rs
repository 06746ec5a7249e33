//! Merging the u and v coordinates of a simulated coverage into one flat
//! sequence, u0, v0, u1, v1, ...

use itertools::Itertools;
use vstd::prelude::*;

verus! {

/// Alternates elements of `a` and `b`, starting with `a`; once one of them
/// runs out, the rest of the other follows.
pub open spec fn interleaved<T>(a: Seq<T>, b: Seq<T>) -> Seq<T>
    decreases a.len() + b.len(),
{
    if a.len() == 0 {
        b
    } else {
        seq![a[0]] + interleaved(b, a.drop_first())
    }
}

/// `Itertools::interleave` from itertools, collected into a `Vec`: the
/// adaptor yields from `a` and `b` in turn, starting with `a`, and continues
/// with the other once one is exhausted, which is what `interleaved` states.
#[verifier::external_body]
fn interleave_vecs<T>(a: Vec<T>, b: Vec<T>) -> (r: Vec<T>)
    ensures
        r@ == interleaved(a@, b@),
{
    a.into_iter().interleave(b).collect()
}

/// The coordinates `u` and `v` merged into one vector, `u[0], v[0], u[1],
/// v[1], ...`, as handed to the plotting front end. Nothing is lost; when `u`
/// and `v` are equally long, even places hold `u` and odd places hold `v`.
pub fn interleave_uv<T>(u: Vec<T>, v: Vec<T>) -> (r: Vec<T>)
    ensures
        r@ == interleaved(u@, v@),
        r@.len() == u@.len() + v@.len(),
        u@.len() == v@.len() ==> {
            &&& r@.len() == 2 * u@.len()
            &&& forall|i: int| 0 <= i < u@.len() ==> #[trigger] r@[2 * i] == u@[i]
            &&& forall|i: int| 0 <= i < v@.len() ==> #[trigger] r@[2 * i + 1] == v@[i]
        },
{
    proof {
        lemma_interleaved_len(u@, v@);
        if u@.len() == v@.len() {
            lemma_interleaved_alternates(u@, v@);
        }
    }
    interleave_vecs(u, v)
}

/// Interleaving keeps every element: the result is as long as both inputs.
pub proof fn lemma_interleaved_len<T>(a: Seq<T>, b: Seq<T>)
    ensures
        interleaved(a, b).len() == a.len() + b.len(),
    decreases a.len() + b.len(),
{
    if a.len() > 0 {
        lemma_interleaved_len(b, a.drop_first());
    }
}

/// For inputs of equal length the result alternates exactly: even places hold
/// `a`, odd places hold `b`.
pub proof fn lemma_interleaved_alternates<T>(a: Seq<T>, b: Seq<T>)
    requires
        a.len() == b.len(),
    ensures
        interleaved(a, b).len() == 2 * a.len(),
        forall|k: int| 0 <= k < a.len() ==> #[trigger] interleaved(a, b)[2 * k] == a[k],
        forall|k: int| 0 <= k < b.len() ==> #[trigger] interleaved(a, b)[2 * k + 1] == b[k],
    decreases a.len(),
{
    lemma_interleaved_len(a, b);
    if a.len() > 0 {
        let a1 = a.drop_first();
        let b1 = b.drop_first();
        lemma_interleaved_alternates(a1, b1);
        let rest = interleaved(a1, b1);
        let r = interleaved(a, b);
        assert(interleaved(b, a1) == seq![b[0]] + rest);
        assert(r == seq![a[0]] + (seq![b[0]] + rest));
        assert forall|k: int| 0 <= k < a.len() implies #[trigger] r[2 * k] == a[k] by {
            if k > 0 {
                assert(r[2 * k] == rest[2 * (k - 1)]);
                assert(a[k] == a1[k - 1]);
            }
        }
        assert forall|k: int| 0 <= k < b.len() implies #[trigger] r[2 * k + 1] == b[k] by {
            if k > 0 {
                assert(r[2 * k + 1] == rest[2 * (k - 1) + 1]);
                assert(b[k] == b1[k - 1]);
            }
        }
    }
}

} // verus!
