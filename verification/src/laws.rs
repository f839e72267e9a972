use vstd::prelude::*;
use crate::adjoint::{adjoint, feeds, flow, gradients, join, pushed, Adjoint};
use crate::backend::Backend;
use crate::graph::NodeModel;

verus! {

/// Whether the step "operand `slots2` of node `k2` is next to send" comes at
/// or after the step "operand `slots` of node `k` is next to send" in a
/// backward pass.
pub open spec fn at_or_after(k: int, slots: int, k2: int, slots2: int) -> bool {
    k2 < k || (k2 == k && slots2 >= slots)
}

/// Whether operand `t` of node `kk` sends between the two steps.
pub open spec fn sends_between(k: int, slots: int, k2: int, slots2: int, kk: int, t: int) -> bool {
    &&& kk < k || (kk == k && t >= slots)
    &&& kk > k2 || (kk == k2 && t < slots2)
}

/// What a node holds does not change while no operand feeds it.
pub proof fn quiet_steps_change_nothing<B: Backend>(
    nodes: Seq<NodeModel<B::Model>>,
    root: int,
    seed: B::Model,
    n: int,
    k: int,
    slots: int,
    k2: int,
    slots2: int,
)
    requires
        0 <= n <= k2 <= k <= root,
        0 <= slots,
        0 <= slots2,
        at_or_after(k, slots, k2, slots2),
        forall|kk: int, t: int|
            sends_between(k, slots, k2, slots2, kk, t) ==> !#[trigger] feeds(nodes, kk, t, n),
    ensures
        flow::<B>(nodes, root, seed, n, k2, slots2) == flow::<B>(nodes, root, seed, n, k, slots),
    decreases k - k2, slots2,
{
    if k2 == k && slots2 == slots {
    } else if slots2 > 0 {
        assert(sends_between(k, slots, k2, slots2, k2, slots2 - 1));
        assert(!feeds(nodes, k2, slots2 - 1, n));
        assert forall|kk: int, t: int|
            sends_between(k, slots, k2, slots2 - 1, kk, t) implies !#[trigger] feeds(
            nodes,
            kk,
            t,
            n,
        ) by {
            assert(sends_between(k, slots, k2, slots2, kk, t));
        }
        quiet_steps_change_nothing::<B>(nodes, root, seed, n, k, slots, k2, slots2 - 1);
    } else {
        let above = nodes[k2 + 1].parents.len() as int;
        if k2 + 1 == k && above < slots {
            // The slots from `slots` on do not exist: nothing is sent from them.
            slots_past_the_last::<B>(nodes, root, seed, n, k, slots);
        } else {
            assert forall|kk: int, t: int|
                sends_between(k, slots, k2 + 1, above, kk, t) implies !#[trigger] feeds(
                nodes,
                kk,
                t,
                n,
            ) by {
                assert(sends_between(k, slots, k2, slots2, kk, t));
            }
            quiet_steps_change_nothing::<B>(nodes, root, seed, n, k, slots, k2 + 1, above);
        }
    }
}

/// Counting operands that a node does not have changes nothing.
pub proof fn slots_past_the_last<B: Backend>(
    nodes: Seq<NodeModel<B::Model>>,
    root: int,
    seed: B::Model,
    n: int,
    k: int,
    slots: int,
)
    requires
        0 <= n <= k <= root,
        nodes[k].parents.len() <= slots,
    ensures
        flow::<B>(nodes, root, seed, n, k, slots) == flow::<B>(
            nodes,
            root,
            seed,
            n,
            k,
            nodes[k].parents.len() as int,
        ),
    decreases slots,
{
    if slots > nodes[k].parents.len() {
        assert(!feeds(nodes, k, slots - 1, n));
        slots_past_the_last::<B>(nodes, root, seed, n, k, slots - 1);
    }
}

/// Nothing accumulated with `x` is `x`.
pub proof fn join_with_nothing<B: Backend>(x: Adjoint<B::Model>)
    ensures
        join::<B>(Adjoint::Absent, x) == x,
        join::<B>(x, Adjoint::Absent) == x,
{
}

/// The chain rule. A node other than the root that feeds exactly one
/// operand, operand `s` of node `c`, receives the backward formula of `c`
/// applied to all that `c` received.
pub proof fn chain_rule<B: Backend>(
    nodes: Seq<NodeModel<B::Model>>,
    root: int,
    seed: B::Model,
    n: int,
    c: int,
    s: int,
)
    requires
        0 <= n < c <= root < nodes.len(),
        feeds(nodes, c, s, n),
        forall|k: int, t: int| #[trigger] feeds(nodes, k, t, n) && k <= root ==> k == c && t == s,
    ensures
        adjoint::<B>(nodes, root, seed, n) == pushed::<B>(
            nodes[c].op,
            s,
            adjoint::<B>(nodes, root, seed, c),
        ),
{
    quiet_steps_change_nothing::<B>(nodes, root, seed, n, root, 0, c, s);
    assert(flow::<B>(nodes, root, seed, n, root, 0) is Absent);
    join_with_nothing::<B>(pushed::<B>(nodes[c].op, s, adjoint::<B>(nodes, root, seed, c)));
    assert(flow::<B>(nodes, root, seed, n, c, s + 1) == pushed::<B>(
        nodes[c].op,
        s,
        adjoint::<B>(nodes, root, seed, c),
    ));
    quiet_steps_change_nothing::<B>(nodes, root, seed, n, c, s + 1, n, 0);
}

/// The chain rule for a composition. Where `x` feeds only operand `s` of
/// `g`, and `g` feeds only operand `t` of the root `f`, the gradient of `x`
/// is the backward formula of `g` applied to the backward formula of `f`
/// applied to the seed.
pub proof fn chain_rule_composed<B: Backend>(
    nodes: Seq<NodeModel<B::Model>>,
    seed: B::Model,
    x: int,
    g: int,
    s: int,
    f: int,
    t: int,
)
    requires
        0 <= x < g < f < nodes.len(),
        nodes[f].requires_grad,
        feeds(nodes, g, s, x),
        feeds(nodes, f, t, g),
        forall|k: int, u: int| #[trigger] feeds(nodes, k, u, x) && k <= f ==> k == g && u == s,
        forall|k: int, u: int| #[trigger] feeds(nodes, k, u, g) && k <= f ==> k == f && u == t,
    ensures
        adjoint::<B>(nodes, f, seed, x) == pushed::<B>(
            nodes[g].op,
            s,
            pushed::<B>(nodes[f].op, t, Adjoint::Value(seed)),
        ),
{
    chain_rule::<B>(nodes, f, seed, x, g, s);
    chain_rule::<B>(nodes, f, seed, g, f, t);
}

/// Accumulation. A node other than the root that feeds exactly two
/// operands receives the sum of what the two send: first what comes from
/// the one that sends first, operand `s2` of node `c2`, then what comes from
/// operand `s1` of node `c1`.
pub proof fn two_consumers_add_up<B: Backend>(
    nodes: Seq<NodeModel<B::Model>>,
    root: int,
    seed: B::Model,
    n: int,
    c1: int,
    s1: int,
    c2: int,
    s2: int,
)
    requires
        0 <= n < c1 <= c2 <= root < nodes.len(),
        c1 < c2 || s2 < s1,
        feeds(nodes, c1, s1, n),
        feeds(nodes, c2, s2, n),
        forall|k: int, t: int|
            #[trigger] feeds(nodes, k, t, n) && k <= root ==> (k == c1 && t == s1) || (k == c2 && t
                == s2),
    ensures
        adjoint::<B>(nodes, root, seed, n) == join::<B>(
            pushed::<B>(nodes[c2].op, s2, adjoint::<B>(nodes, root, seed, c2)),
            pushed::<B>(nodes[c1].op, s1, adjoint::<B>(nodes, root, seed, c1)),
        ),
{
    let first = pushed::<B>(nodes[c2].op, s2, adjoint::<B>(nodes, root, seed, c2));
    quiet_steps_change_nothing::<B>(nodes, root, seed, n, root, 0, c2, s2);
    assert(flow::<B>(nodes, root, seed, n, root, 0) is Absent);
    join_with_nothing::<B>(first);
    assert(flow::<B>(nodes, root, seed, n, c2, s2 + 1) == first);
    quiet_steps_change_nothing::<B>(nodes, root, seed, n, c2, s2 + 1, c1, s1);
    quiet_steps_change_nothing::<B>(nodes, root, seed, n, c1, s1 + 1, n, 0);
}

/// A node that is not the root and that no operand feeds receives nothing.
pub proof fn unfed_receives_nothing<B: Backend>(
    nodes: Seq<NodeModel<B::Model>>,
    root: int,
    seed: B::Model,
    n: int,
)
    requires
        0 <= n < root,
        forall|k: int, t: int| k <= root ==> !#[trigger] feeds(nodes, k, t, n),
    ensures
        adjoint::<B>(nodes, root, seed, n) is Absent,
{
    quiet_steps_change_nothing::<B>(nodes, root, seed, n, root, 0, n, 0);
}

/// A node that does not require a gradient receives none, wherever it
/// stands in the graph.
pub proof fn untracked_receives_nothing<B: Backend>(
    nodes: Seq<NodeModel<B::Model>>,
    root: int,
    seed: B::Model,
    n: int,
)
    requires
        0 <= n < nodes.len(),
        !nodes[n].requires_grad,
    ensures
        adjoint::<B>(nodes, root, seed, n) is Absent,
{
    if n < root {
        assert forall|k: int, t: int| k <= root implies !#[trigger] feeds(nodes, k, t, n) by {}
        unfed_receives_nothing::<B>(nodes, root, seed, n);
    }
}

/// Below a node `g` through which every path from the root passes, the pass
/// from the root goes as the pass from `g` seeded with the gradient that `g`
/// received.
proof fn passes_agree_below<B: Backend>(
    nodes: Seq<NodeModel<B::Model>>,
    root: int,
    seed: B::Model,
    g: int,
    h: B::Model,
    n: int,
    k: int,
    slots: int,
)
    requires
        0 <= n <= k <= g < root < nodes.len(),
        0 <= slots,
        adjoint::<B>(nodes, root, seed, g) == Adjoint::Value(h),
        forall|kk: int, t: int, m: int| g < kk <= root && m < g ==> !#[trigger] feeds(nodes, kk, t, m),
    ensures
        flow::<B>(nodes, root, seed, n, k, slots) == flow::<B>(nodes, g, h, n, k, slots),
    decreases g - k, slots,
{
    if slots > 0 {
        passes_agree_below::<B>(nodes, root, seed, g, h, n, k, slots - 1);
        passes_agree_below::<B>(nodes, root, seed, g, h, k, k, 0);
    } else if k < g {
        passes_agree_below::<B>(nodes, root, seed, g, h, n, k + 1, nodes[k + 1].parents.len() as int);
    } else if n == g {
        if !nodes[g].requires_grad {
            untracked_receives_nothing::<B>(nodes, root, seed, g);
        }
    } else {
        assert forall|kk: int, t: int|
            sends_between(root, 0, g, 0, kk, t) implies !#[trigger] feeds(nodes, kk, t, n) by {}
        quiet_steps_change_nothing::<B>(nodes, root, seed, n, root, 0, g, 0);
    }
}

/// Two passes stitched by hand. Where every path from the root to the nodes
/// before `g` passes through `g`, a backward pass from the root gives every
/// node up to `g` what a second pass gives it that starts at `g` with the
/// gradient `h` that the first pass gave to `g`.
pub proof fn stitched_passes_agree<B: Backend>(
    nodes: Seq<NodeModel<B::Model>>,
    root: int,
    seed: B::Model,
    g: int,
    h: B::Model,
    n: int,
)
    requires
        0 <= n <= g < root < nodes.len(),
        adjoint::<B>(nodes, root, seed, g) == Adjoint::Value(h),
        forall|k: int, t: int, m: int| g < k <= root && m < g ==> !#[trigger] feeds(nodes, k, t, m),
    ensures
        adjoint::<B>(nodes, root, seed, n) == adjoint::<B>(nodes, g, h, n),
{
    passes_agree_below::<B>(nodes, root, seed, g, h, n, n, 0);
}

/// The container of a backward pass holds entries only for nodes up to the
/// root that require a gradient: a tensor built without one contributes no
/// entry.
pub proof fn container_holds_only_tracked<B: Backend>(
    nodes: Seq<NodeModel<B::Model>>,
    root: int,
    seed: B::Model,
    n: int,
)
    requires
        0 <= root < nodes.len(),
        gradients::<B>(nodes, root, seed) matches Some(held) && held.contains_key(n),
    ensures
        0 <= n <= root,
        nodes[n].requires_grad,
{
    if !nodes[n].requires_grad {
        untracked_receives_nothing::<B>(nodes, root, seed, n);
    }
}

/// A failure stays: a node that holds a failure at some point of the pass
/// ends with one.
pub proof fn failure_stays<B: Backend>(
    nodes: Seq<NodeModel<B::Model>>,
    root: int,
    seed: B::Model,
    n: int,
    k: int,
    slots: int,
)
    requires
        0 <= n <= k <= root < nodes.len(),
        0 <= slots <= nodes[k].parents.len(),
        flow::<B>(nodes, root, seed, n, k, slots) is Failed,
    ensures
        adjoint::<B>(nodes, root, seed, n) is Failed,
    decreases k - n, nodes[k].parents.len() - slots,
{
    if slots < nodes[k].parents.len() {
        failure_stays::<B>(nodes, root, seed, n, k, slots + 1);
    } else if n < k {
        failure_stays::<B>(nodes, root, seed, n, k - 1, 0);
    } else {
        own_operands_send_nothing::<B>(nodes, root, seed, n, slots);
    }
}

/// A node's own operands send it nothing.
pub proof fn own_operands_send_nothing<B: Backend>(
    nodes: Seq<NodeModel<B::Model>>,
    root: int,
    seed: B::Model,
    n: int,
    slots: int,
)
    requires
        0 <= n <= root,
        0 <= slots,
    ensures
        flow::<B>(nodes, root, seed, n, n, slots) == adjoint::<B>(nodes, root, seed, n),
    decreases slots,
{
    if slots > 0 {
        own_operands_send_nothing::<B>(nodes, root, seed, n, slots - 1);
    }
}

} // verus!
