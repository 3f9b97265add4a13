//! The abstract behaviour shared by both stacks: a stack is a `Seq<T>` whose
//! last element is the top, and a run is a sequence of operations applied to
//! it, with each push gated by the capacity as a careful caller gates it.
use vstd::prelude::*;

verus! {

/// One operation on a stack.
pub enum Op<T> {
    Push(T),
    Pop,
}

/// What a caller sees after one operation: the element a pop handed back
/// (`None` for a push or for a pop on an empty stack), and the length after it.
pub struct Observation<T> {
    pub popped: Option<T>,
    pub len: usize,
}

/// The element a pop hands back from a stack holding `s`.
pub open spec fn top_of<T>(s: Seq<T>) -> Option<T> {
    if s.len() == 0 {
        None
    } else {
        Some(s.last())
    }
}

/// What a stack holding `s` holds after a pop.
pub open spec fn without_top<T>(s: Seq<T>) -> Seq<T> {
    if s.len() == 0 {
        s
    } else {
        s.drop_last()
    }
}

/// The contents after `op`, where a push onto a full stack is skipped.
pub open spec fn step<T>(cap: nat, s: Seq<T>, op: Op<T>) -> Seq<T> {
    match op {
        Op::Push(v) => if s.len() < cap {
            s.push(v)
        } else {
            s
        },
        Op::Pop => without_top(s),
    }
}

/// The contents after applying `ops` in order to a stack holding `s`.
pub open spec fn run<T>(cap: nat, s: Seq<T>, ops: Seq<Op<T>>) -> Seq<T>
    decreases ops.len(),
{
    if ops.len() == 0 {
        s
    } else {
        step(cap, run(cap, s, ops.drop_last()), ops.last())
    }
}

/// What `op` shows a caller when applied to a stack holding `s`.
pub open spec fn observe<T>(cap: nat, s: Seq<T>, op: Op<T>) -> Observation<T> {
    Observation {
        popped: match op {
            Op::Push(_) => None,
            Op::Pop => top_of(s),
        },
        len: step(cap, s, op).len() as usize,
    }
}

/// What each of `ops` shows a caller, in order, starting from `s`.
pub open spec fn observations<T>(cap: nat, s: Seq<T>, ops: Seq<Op<T>>) -> Seq<Observation<T>>
    decreases ops.len(),
{
    if ops.len() == 0 {
        Seq::empty()
    } else {
        let prefix = ops.drop_last();
        observations(cap, s, prefix).push(observe(cap, run(cap, s, prefix), ops.last()))
    }
}

/// Every push in `ops`, applied from `s`, finds the stack below capacity.
pub open spec fn within_capacity<T>(cap: nat, s: Seq<T>, ops: Seq<Op<T>>) -> bool
    decreases ops.len(),
{
    if ops.len() == 0 {
        true
    } else {
        &&& within_capacity(cap, s, ops.drop_last())
        &&& ops.last() is Push ==> run(cap, s, ops.drop_last()).len() < cap
    }
}

/// The number of pushes in `ops`.
pub open spec fn count_pushes<T>(ops: Seq<Op<T>>) -> nat
    decreases ops.len(),
{
    if ops.len() == 0 {
        0
    } else {
        count_pushes(ops.drop_last()) + if ops.last() is Push {
            1nat
        } else {
            0nat
        }
    }
}

/// The number of observations in which a pop handed back an element.
pub open spec fn count_popped<T>(obs: Seq<Observation<T>>) -> nat
    decreases obs.len(),
{
    if obs.len() == 0 {
        0
    } else {
        count_popped(obs.drop_last()) + if obs.last().popped is Some {
            1nat
        } else {
            0nat
        }
    }
}

/// A push of each of `vs`, in order.
pub open spec fn pushes<T>(vs: Seq<T>) -> Seq<Op<T>> {
    vs.map_values(|v: T| Op::Push(v))
}

/// `k` pops.
pub open spec fn pops<T>(k: nat) -> Seq<Op<T>> {
    Seq::new(k, |i: int| Op::Pop)
}

/// Running `a` and then `b` is running `b` from where `a` left the stack, and
/// shows what `a` shows followed by what `b` shows from there.
pub proof fn lemma_run_append<T>(cap: nat, s: Seq<T>, a: Seq<Op<T>>, b: Seq<Op<T>>)
    ensures
        run(cap, s, a + b) == run(cap, run(cap, s, a), b),
        observations(cap, s, a + b) == observations(cap, s, a) + observations(
            cap,
            run(cap, s, a),
            b,
        ),
    decreases b.len(),
{
    if b.len() == 0 {
        assert(a + b =~= a);
        assert(observations(cap, s, a) + observations(cap, run(cap, s, a), b) =~= observations(
            cap,
            s,
            a,
        ));
    } else {
        lemma_run_append(cap, s, a, b.drop_last());
        assert((a + b).drop_last() =~= a + b.drop_last());
        assert((a + b).last() == b.last());
    }
}

/// Pushing each of `vs` in order onto a stack holding `s`, with room for all
/// of them, leaves it holding `s` followed by `vs`.
pub proof fn lemma_run_pushes<T>(cap: nat, s: Seq<T>, vs: Seq<T>)
    requires
        s.len() + vs.len() <= cap,
    ensures
        run(cap, s, pushes(vs)) == s + vs,
        forall|i: int| 0 <= i < vs.len() ==> (#[trigger] observations(cap, s, pushes(vs))[i]).popped
            is None,
        observations(cap, s, pushes(vs)).len() == vs.len(),
    decreases vs.len(),
{
    if vs.len() == 0 {
        assert(s + vs =~= s);
    } else {
        lemma_run_pushes(cap, s, vs.drop_last());
        assert(pushes(vs).drop_last() =~= pushes(vs.drop_last()));
        assert(s + vs =~= (s + vs.drop_last()).push(vs.last()));
    }
}

/// Popping `k` times from a stack holding `s`, with `k` at most its length,
/// hands back its top `k` elements from the top down and leaves the rest.
pub proof fn lemma_run_pops<T>(cap: nat, s: Seq<T>, k: nat)
    requires
        k <= s.len(),
    ensures
        run(cap, s, pops(k)) == s.take(s.len() - k),
        observations(cap, s, pops(k)).len() == k,
        forall|i: int|
            0 <= i < k ==> (#[trigger] observations(cap, s, pops(k))[i]).popped == Some(
                s[s.len() - 1 - i],
            ),
    decreases k,
{
    if k == 0 {
        assert(s.take(s.len() as int) =~= s);
    } else {
        lemma_run_pops(cap, s, (k - 1) as nat);
        assert(pops::<T>(k).drop_last() =~= pops::<T>((k - 1) as nat));
        assert(s.take(s.len() - (k - 1)).drop_last() =~= s.take(s.len() - k));
    }
}

/// Every push of `vs` onto an empty stack finds room when there are at most
/// `cap` of them.
proof fn lemma_pushes_fit<T>(cap: nat, vs: Seq<T>)
    requires
        vs.len() <= cap,
    ensures
        within_capacity(cap, Seq::<T>::empty(), pushes(vs)),
    decreases vs.len(),
{
    if vs.len() > 0 {
        lemma_pushes_fit(cap, vs.drop_last());
        assert(pushes(vs).drop_last() =~= pushes(vs.drop_last()));
        lemma_run_pushes(cap, Seq::<T>::empty(), vs.drop_last());
    }
}

/// Capacity is the exact bound: a stack of capacity `cap` takes `cap` pushes,
/// after which it is full, so one more push does not find room.
pub proof fn lemma_capacity_boundary<T>(cap: nat, vs: Seq<T>, v: T)
    requires
        vs.len() == cap,
    ensures
        within_capacity(cap, Seq::<T>::empty(), pushes(vs)),
        run(cap, Seq::<T>::empty(), pushes(vs)).len() == cap,
        !within_capacity(cap, Seq::<T>::empty(), pushes(vs).push(Op::Push(v))),
{
    lemma_pushes_fit(cap, vs);
    lemma_run_pushes(cap, Seq::<T>::empty(), vs);
    assert(pushes(vs).push(Op::Push(v)).drop_last() =~= pushes(vs));
}

/// Last in, first out: pushing `vs` onto an empty stack with room for all of
/// them and then popping as many times hands them back in reverse order and
/// leaves the stack empty.
pub proof fn lemma_lifo<T>(cap: nat, vs: Seq<T>)
    requires
        vs.len() <= cap,
    ensures
        ({
            let ops = pushes(vs) + pops(vs.len());
            let obs = observations(cap, Seq::<T>::empty(), ops);
            &&& obs.len() == 2 * vs.len()
            &&& forall|i: int|
                0 <= i < vs.len() ==> (#[trigger] obs[vs.len() + i]).popped == Some(
                    vs[vs.len() - 1 - i],
                )
            &&& run(cap, Seq::<T>::empty(), ops) == Seq::<T>::empty()
        }),
{
    let e = Seq::<T>::empty();
    lemma_run_pushes(cap, e, vs);
    assert(e + vs =~= vs);
    lemma_run_pops(cap, vs, vs.len());
    lemma_run_append(cap, e, pushes(vs), pops(vs.len()));
    assert(vs.take(0) =~= e);
}

/// Along any run whose pushes all find room, the length is the number of
/// pushes less the number of pops that handed back an element.
pub proof fn lemma_round_trip<T>(cap: nat, ops: Seq<Op<T>>)
    requires
        within_capacity(cap, Seq::<T>::empty(), ops),
    ensures
        run(cap, Seq::<T>::empty(), ops).len() + count_popped(
            observations(cap, Seq::<T>::empty(), ops),
        ) == count_pushes(ops),
    decreases ops.len(),
{
    if ops.len() > 0 {
        lemma_round_trip(cap, ops.drop_last());
        let obs = observations(cap, Seq::<T>::empty(), ops);
        assert(obs.drop_last() =~= observations(cap, Seq::<T>::empty(), ops.drop_last()));
    }
}

/// Popping a stack down to empty ends: after as many pops as it holds it is
/// empty, and one more pop hands back nothing.
pub proof fn lemma_drain<T>(cap: nat, s: Seq<T>)
    ensures
        run(cap, s, pops(s.len())) == Seq::<T>::empty(),
        observations(cap, s, pops(s.len() + 1)).last().popped is None,
        observations(cap, s, pops(s.len() + 1)).last().len == 0,
{
    lemma_run_pops(cap, s, s.len());
    assert(s.take(0) =~= Seq::<T>::empty());
    assert(pops::<T>(s.len() + 1).drop_last() =~= pops::<T>(s.len()));
}

} // verus!
