//! General laws of the bounded stack, stated over a sequential model
//! of its operation histories and proved by induction.
//!
//! `apply_op` is exactly the abstract step that the contracts of
//! `Stack::push`, `Stack::pop` and `Stack::clear` promise of the
//! executable container, so what is proved of the model holds of any
//! sequence of completed calls (for the shared `BlockingStack`, of the
//! sequence of completed operations as globally ordered by lock
//! acquisition).

use vstd::prelude::*;
use vstd::multiset::Multiset;
use vstd::seq_lib::group_to_multiset_ensures;

verus! {

/// One completed operation of a stack history. A `Push` that finds the
/// stack full and a `Pop` that finds it empty leave the state
/// unchanged, mirroring the error cases of the bounded container and
/// the re-checked guard conditions of the blocking wrapper.
pub enum StackOp<T> {
    Push(T),
    Pop,
    Clear,
}

/// The abstract step: how one operation transforms the stack contents
/// under a fixed capacity `cap`.
pub open spec fn apply_op<T>(s: Seq<T>, cap: nat, op: StackOp<T>) -> Seq<T> {
    match op {
        StackOp::Push(v) => if s.len() < cap {
            s.push(v)
        } else {
            s
        },
        StackOp::Pop => if s.len() > 0 {
            s.drop_last()
        } else {
            s
        },
        StackOp::Clear => Seq::empty(),
    }
}

/// The contents after a whole history of operations, applied in order.
pub open spec fn apply_ops<T>(s: Seq<T>, cap: nat, ops: Seq<StackOp<T>>) -> Seq<T>
    decreases ops.len(),
{
    if ops.len() == 0 {
        s
    } else {
        apply_ops(apply_op(s, cap, ops.first()), cap, ops.drop_first())
    }
}

/// The multiset of values successfully pushed over a history: a push
/// that found the stack full contributes nothing.
pub open spec fn pushed_values<T>(s: Seq<T>, cap: nat, ops: Seq<StackOp<T>>) -> Multiset<T>
    decreases ops.len(),
{
    if ops.len() == 0 {
        Multiset::empty()
    } else {
        let rest = pushed_values(apply_op(s, cap, ops.first()), cap, ops.drop_first());
        match ops.first() {
            StackOp::Push(v) => if s.len() < cap {
                rest.insert(v)
            } else {
                rest
            },
            StackOp::Pop => rest,
            StackOp::Clear => rest,
        }
    }
}

/// The multiset of values successfully popped over a history: a pop
/// that found the stack empty contributes nothing.
pub open spec fn popped_values<T>(s: Seq<T>, cap: nat, ops: Seq<StackOp<T>>) -> Multiset<T>
    decreases ops.len(),
{
    if ops.len() == 0 {
        Multiset::empty()
    } else {
        let rest = popped_values(apply_op(s, cap, ops.first()), cap, ops.drop_first());
        match ops.first() {
            StackOp::Push(v) => rest,
            StackOp::Pop => if s.len() > 0 {
                rest.insert(s.last())
            } else {
                rest
            },
            StackOp::Clear => rest,
        }
    }
}

/// Whether a history contains no `Clear`.
pub open spec fn no_clear<T>(ops: Seq<StackOp<T>>) -> bool {
    forall|i: int| 0 <= i < ops.len() ==> !((#[trigger] ops[i]) is Clear)
}

/// Capacity invariant: for every sequence of operations, the element
/// count stays between 0 and the capacity at every quiescent point.
pub proof fn lemma_capacity_invariant<T>(s: Seq<T>, cap: nat, ops: Seq<StackOp<T>>)
    requires
        s.len() <= cap,
    ensures
        apply_ops(s, cap, ops).len() <= cap,
    decreases ops.len(),
{
    if ops.len() > 0 {
        lemma_capacity_invariant(apply_op(s, cap, ops.first()), cap, ops.drop_first());
    }
}

/// No loss and no duplication: over any history without `Clear`, the
/// values present at the start plus the values successfully pushed are
/// exactly the values successfully popped plus the values still
/// present — as multisets, so nothing appears or vanishes.
pub proof fn lemma_no_loss_no_duplication<T>(s: Seq<T>, cap: nat, ops: Seq<StackOp<T>>)
    requires
        no_clear(ops),
    ensures
        s.to_multiset().add(pushed_values(s, cap, ops)) =~= popped_values(s, cap, ops).add(
            apply_ops(s, cap, ops).to_multiset(),
        ),
    decreases ops.len(),
{
    broadcast use group_to_multiset_ensures;
    broadcast use vstd::multiset::group_multiset_axioms;

    if ops.len() > 0 {
        let op0 = ops.first();
        let s1 = apply_op(s, cap, op0);
        let rest = ops.drop_first();
        assert(no_clear(rest)) by {
            assert(forall|i: int| 0 <= i < rest.len() ==> rest[i] == ops[i + 1]);
        }
        lemma_no_loss_no_duplication(s1, cap, rest);
        let fin = apply_ops(s1, cap, rest);
        assert(apply_ops(s, cap, ops) == fin);
        let pushed1 = pushed_values(s1, cap, rest);
        let popped1 = popped_values(s1, cap, rest);
        match op0 {
            StackOp::Push(v) => {
                if s.len() < cap {
                    assert(s1 == s.push(v));
                    assert(s1.to_multiset() == s.to_multiset().insert(v));
                    assert(pushed_values(s, cap, ops) == pushed1.insert(v));
                    assert(popped_values(s, cap, ops) == popped1);
                    assert forall|x: T|
                        s.to_multiset().add(pushed_values(s, cap, ops)).count(x)
                            == popped_values(s, cap, ops).add(fin.to_multiset()).count(x) by {
                        assert(s1.to_multiset().add(pushed1).count(x) == popped1.add(
                            fin.to_multiset(),
                        ).count(x));
                    }
                } else {
                    assert(s1 == s);
                    assert(pushed_values(s, cap, ops) == pushed1);
                    assert(popped_values(s, cap, ops) == popped1);
                }
            },
            StackOp::Pop => {
                if s.len() > 0 {
                    assert(s =~= s1.push(s.last()));
                    assert(s.to_multiset() == s1.to_multiset().insert(s.last()));
                    assert(pushed_values(s, cap, ops) == pushed1);
                    assert(popped_values(s, cap, ops) == popped1.insert(s.last()));
                    assert forall|x: T|
                        s.to_multiset().add(pushed_values(s, cap, ops)).count(x)
                            == popped_values(s, cap, ops).add(fin.to_multiset()).count(x) by {
                        assert(s1.to_multiset().add(pushed1).count(x) == popped1.add(
                            fin.to_multiset(),
                        ).count(x));
                    }
                } else {
                    assert(s1 == s);
                    assert(pushed_values(s, cap, ops) == pushed1);
                    assert(popped_values(s, cap, ops) == popped1);
                }
            },
            StackOp::Clear => {
                assert(ops[0] is Clear);
                assert(false);
            },
        }
        assert(s.to_multiset().add(pushed_values(s, cap, ops)) =~= popped_values(s, cap, ops).add(
            apply_ops(s, cap, ops).to_multiset(),
        ));
    }
}

/// Conservation over a balanced history: starting empty and ending
/// empty, with no `Clear`, the multiset of values successfully popped
/// equals the multiset of values successfully pushed.
pub proof fn lemma_balanced_history_conserves_values<T>(cap: nat, ops: Seq<StackOp<T>>)
    requires
        no_clear(ops),
        apply_ops(Seq::<T>::empty(), cap, ops).len() == 0,
    ensures
        popped_values(Seq::<T>::empty(), cap, ops) =~= pushed_values(Seq::<T>::empty(), cap, ops),
{
    broadcast use group_to_multiset_ensures;
    broadcast use vstd::multiset::group_multiset_axioms;

    lemma_no_loss_no_duplication(Seq::<T>::empty(), cap, ops);
    assert(Seq::<T>::empty().to_multiset() =~= Multiset::<T>::empty());
    assert(apply_ops(Seq::<T>::empty(), cap, ops).to_multiset() =~= Multiset::<T>::empty());
    assert forall|v: T|
        popped_values(Seq::<T>::empty(), cap, ops).count(v) == pushed_values(
            Seq::<T>::empty(),
            cap,
            ops,
        ).count(v) by {
        assert(Seq::<T>::empty().to_multiset().add(pushed_values(Seq::<T>::empty(), cap, ops)).count(
            v,
        ) == popped_values(Seq::<T>::empty(), cap, ops).add(
            apply_ops(Seq::<T>::empty(), cap, ops).to_multiset(),
        ).count(v));
    }
}

/// Blocking correctness at capacity, the safety half: a push attempt
/// that finds the stack full changes nothing, so the caller is left
/// exactly where it was and must wait; once one pop has occurred, the
/// next push attempt succeeds, and the size reflects the net change.
/// That the waiting caller is eventually woken is a scheduling
/// property, outside the model.
pub proof fn lemma_push_on_full_waits_for_pop<T>(s: Seq<T>, cap: nat, v: T)
    requires
        s.len() == cap,
    ensures
        apply_op(s, cap, StackOp::Push(v)) == s,
        cap > 0 ==> apply_op(apply_op(s, cap, StackOp::Pop), cap, StackOp::Push(v)) == s.drop_last(
        ).push(v),
        cap > 0 ==> apply_op(apply_op(s, cap, StackOp::Pop), cap, StackOp::Push(v)).len() == cap,
{
}

/// Blocking correctness on emptiness, the safety half: a pop attempt
/// that finds the stack empty changes nothing, so the caller must
/// wait; once a push has occurred, the next pop attempt succeeds and
/// returns exactly the pushed value, leaving the stack as it was.
pub proof fn lemma_pop_receives_pushed_value<T>(s: Seq<T>, cap: nat, v: T)
    requires
        s.len() < cap,
    ensures
        s.len() == 0 ==> apply_op(s, cap, StackOp::Pop) == s,
        apply_op(apply_op(s, cap, StackOp::Push(v)), cap, StackOp::Pop) == s,
        popped_values(s, cap, seq![StackOp::Push(v), StackOp::Pop]) == Multiset::<T>::empty(
        ).insert(v),
{
    broadcast use vstd::multiset::group_multiset_axioms;

    let s1 = s.push(v);
    assert(s1.drop_last() =~= s);
    let ops = seq![StackOp::<T>::Push(v), StackOp::<T>::Pop];
    let rest = ops.drop_first();
    assert(rest.first() == StackOp::<T>::Pop);
    assert(rest.drop_first().len() == 0);
    assert(popped_values(s1, cap, rest) == popped_values(
        s1.drop_last(),
        cap,
        rest.drop_first(),
    ).insert(s1.last()));
    assert(popped_values(s, cap, ops) =~= Multiset::<T>::empty().insert(v));
}

/// Idempotent clear: clearing always leaves the contents empty, and
/// clearing an already empty stack is a no-op.
pub proof fn lemma_clear_idempotent<T>(s: Seq<T>, cap: nat)
    ensures
        apply_op(s, cap, StackOp::<T>::Clear) == Seq::<T>::empty(),
        s.len() == 0 ==> apply_op(s, cap, StackOp::<T>::Clear) == s,
        apply_op(apply_op(s, cap, StackOp::<T>::Clear), cap, StackOp::<T>::Clear) == apply_op(
            s,
            cap,
            StackOp::<T>::Clear,
        ),
{
    if s.len() == 0 {
        assert(s =~= Seq::<T>::empty());
    }
}

} // verus!
