//! Runs one sequence of operations against both stacks side by side, the way
//! a differential test drives them, and records what each shows a caller.
use vstd::prelude::*;
use crate::model::{Op, Observation, observations, run};
use crate::stack_safe;
use crate::stack_unsafe;

verus! {

/// Applies `ops` in order to a fresh stack of each variant with the given
/// capacity, skipping a push when that stack is full, and returns what each
/// variant showed after every operation. The two records are identical, and
/// both are what the abstract stack shows.
pub fn run_both<T: Copy>(capacity: usize, ops: &Vec<Op<T>>) -> (r: (
    Vec<Observation<T>>,
    Vec<Observation<T>>,
))
    requires
        capacity > 0,
    ensures
        r.0@ == r.1@,
        r.0@ == observations(capacity as nat, Seq::<T>::empty(), ops@),
{
    let ghost cap = capacity as nat;
    let mut managed: stack_safe::FixedStack<T> = stack_safe::FixedStack::new(capacity);
    let mut manual: stack_unsafe::FixedStack<T> = stack_unsafe::FixedStack::new(capacity);
    let mut seen_managed: Vec<Observation<T>> = Vec::new();
    let mut seen_manual: Vec<Observation<T>> = Vec::new();
    let mut i: usize = 0;
    while i < ops.len()
        invariant
            i <= ops@.len(),
            managed.wf(),
            manual.wf(),
            managed.spec_capacity() == cap,
            manual.spec_capacity() == cap,
            managed@ == run(cap, Seq::<T>::empty(), ops@.take(i as int)),
            manual@ == managed@,
            seen_managed@ == observations(cap, Seq::<T>::empty(), ops@.take(i as int)),
            seen_manual@ == seen_managed@,
        decreases ops@.len() - i,
    {
        let ghost prefix = ops@.take(i as int);
        assert(ops@.take(i + 1).drop_last() =~= prefix);
        let (popped_managed, popped_manual) = match &ops[i] {
            Op::Push(v) => {
                if managed.len() < managed.capacity() {
                    managed.push(*v);
                }
                if manual.len() < manual.capacity() {
                    manual.push(*v);
                }
                (None, None)
            },
            Op::Pop => (managed.pop(), manual.pop()),
        };
        seen_managed.push(Observation { popped: popped_managed, len: managed.len() });
        seen_manual.push(Observation { popped: popped_manual, len: manual.len() });
        i += 1;
    }
    assert(ops@.take(ops@.len() as int) =~= ops@);
    (seen_managed, seen_manual)
}

} // verus!
