use vstd::prelude::*;
use crate::adjoint::{adjoint, fails, feeds, flow, gradients, join, vjp, Adjoint};
use crate::backend::{agrees, Backend};
use crate::error::AutodiffError;
use crate::graph::{models, node_fits, well_formed, Graph, NodeId, Op};
use crate::laws::failure_stays;
use crate::tensor::DualTensor;

verus! {

/// The gradients that a backward pass computed, by node.
pub struct Gradients<B> {
    pub slots: Vec<Option<B>>,
}

/// What a slot of a container holds.
pub open spec fn held<B: Backend>(slot: Option<B>) -> Adjoint<B::Model> {
    match slot {
        Some(g) => Adjoint::Value(g.model()),
        None => Adjoint::Absent,
    }
}

impl<B: Backend> Gradients<B> {
    /// The gradient of each node that has one.
    pub open spec fn view(&self) -> Map<int, B::Model> {
        Map::new(
            |n: int| 0 <= n < self.slots.len() && self.slots[n] is Some,
            |n: int| self.slots[n]->Some_0.model(),
        )
    }

    /// A container without gradients.
    pub fn new() -> (g: Self)
        ensures
            g@ == Map::<int, B::Model>::empty(),
    {
        let g = Gradients { slots: Vec::new() };
        assert(g@ =~= Map::<int, B::Model>::empty());
        g
    }

    /// The gradient of the node, if the container holds one.
    pub fn get(&self, id: NodeId) -> (r: Option<&B>)
        ensures
            match r {
                Some(g) => self@.contains_key(id.index as int) && g.model() == self@[id.index as int],
                None => !self@.contains_key(id.index as int),
            },
    {
        if id.index < self.slots.len() {
            self.slots[id.index].as_ref()
        } else {
            None
        }
    }

    /// The gradient of the node, or `MissingGradient` where the container
    /// holds none.
    pub fn expect(&self, id: NodeId) -> (r: Result<&B, AutodiffError>)
        ensures
            match r {
                Ok(g) => self@.contains_key(id.index as int) && g.model() == self@[id.index as int],
                Err(e) => !self@.contains_key(id.index as int) && e
                    == AutodiffError::MissingGradient,
            },
    {
        match self.get(id) {
            Some(g) => Ok(g),
            None => Err(AutodiffError::MissingGradient),
        }
    }
}

/// Applies the backward formula of `op` for the operand in `slot` to the
/// gradient `g` of the result.
pub fn backward_step<B: Backend>(op: &Op<B>, slot: usize, g: &B) -> (r: Option<B>)
    ensures
        agrees(r, vjp::<B>(op@, slot as int, g.model())),
{
    match op {
        Op::Leaf => None,
        Op::Add { lhs_shape, rhs_shape } => {
            if slot == 0 {
                g.sum_to_shape(lhs_shape)
            } else {
                g.sum_to_shape(rhs_shape)
            }
        },
        Op::Mul { lhs, rhs, lhs_shape, rhs_shape } => {
            let other = if slot == 0 {
                rhs
            } else {
                lhs
            };
            let dims = if slot == 0 {
                lhs_shape
            } else {
                rhs_shape
            };
            match other {
                Some(o) => match g.mul(o) {
                    Some(p) => p.sum_to_shape(dims),
                    None => None,
                },
                None => None,
            }
        },
        Op::MatMul { lhs, rhs } => {
            if slot == 0 {
                match rhs {
                    Some(b) => match b.transpose() {
                        Some(bt) => g.matmul(&bt),
                        None => None,
                    },
                    None => None,
                }
            } else {
                match lhs {
                    Some(a) => match a.transpose() {
                        Some(at) => at.matmul(g),
                        None => None,
                    },
                    None => None,
                }
            }
        },
        Op::Tanh { output } => match output.mul(output) {
            Some(square) => match output.ones_like().sub(&square) {
                Some(slope) => g.mul(&slope),
                None => None,
            },
            None => None,
        },
    }
}

/// Accumulates `arriving` into what the container under construction holds
/// for node `p`. Returns false, and leaves the slots as they were, where the
/// sum is not defined.
fn accumulate<B: Backend>(pending: &mut Vec<Option<B>>, p: usize, arriving: B) -> (ok: bool)
    requires
        p < old(pending).len(),
    ensures
        final(pending).len() == old(pending).len(),
        forall|n: int| 0 <= n < old(pending).len() && n != p ==> final(pending)[n] == old(pending)[n],
        ok ==> held(final(pending)[p as int]) == join::<B>(
            held(old(pending)[p as int]),
            Adjoint::Value(arriving.model()),
        ),
        !ok ==> join::<B>(held(old(pending)[p as int]), Adjoint::Value(arriving.model())) is Failed
            && final(pending)@ == old(pending)@,
{
    let total = match &pending[p] {
        Some(held) => held.add(&arriving),
        None => Some(arriving),
    };
    match total {
        Some(t) => {
            pending.set(p, Some(t));
            true
        },
        None => false,
    }
}

impl<B: Backend> Graph<B> {
    /// Runs the backward pass from the node `root`, whose gradient is
    /// `seed`, and consumes the graph.
    ///
    /// The nodes are taken off the graph from the last to the first, so each
    /// is visited once, after every node that uses it, and its state is
    /// released as soon as it has sent its share. The container that comes
    /// back holds, for each node that requires a gradient and is reached
    /// from the root, the sum of all that its users sent.
    ///
    /// Fails with `GraphCorruption` where `root` names no node, and with
    /// `ShapeMismatch` where the backend rejects an operation of the pass.
    pub fn backward_from(self, root: NodeId, seed: B) -> (r: Result<Gradients<B>, AutodiffError>)
        requires
            self.wf(),
        ensures
            match r {
                Ok(g) => root.index < self@.len() && gradients::<B>(
                    self@,
                    root.index as int,
                    seed.model(),
                ) == Some(g@),
                Err(e) => if root.index >= self@.len() {
                    e == AutodiffError::GraphCorruption
                } else {
                    e == AutodiffError::ShapeMismatch && gradients::<B>(
                        self@,
                        root.index as int,
                        seed.model(),
                    ) is None
                },
            },
    {
        let ghost all = self.nodes@;
        let ghost model = self@;
        let ghost top = root.index as int;
        let ghost start = seed.model();
        let mut nodes = self.nodes;
        if root.index >= nodes.len() {
            return Err(AutodiffError::GraphCorruption);
        }
        nodes.truncate(root.index + 1);
        let mut pending: Vec<Option<B>> = Vec::new();
        while pending.len() < root.index
            invariant
                pending.len() <= root.index,
                forall|n: int| 0 <= n < pending.len() ==> pending[n] is None,
            decreases root.index - pending.len(),
        {
            pending.push(None);
        }
        if nodes[root.index].requires_grad {
            pending.push(Some(seed));
        } else {
            pending.push(None);
        }
        let mut done: Vec<Option<B>> = Vec::new();
        while nodes.len() > 0
            invariant
                model == self@,
                top == root.index,
                start == seed.model(),
                model == models(all),
                well_formed(model),
                0 <= top < all.len(),
                nodes@ == all.take(nodes.len() as int),
                nodes.len() <= top + 1,
                pending.len() == nodes.len(),
                done.len() == top + 1 - nodes.len(),
                forall|n: int|
                    0 <= n < nodes.len() ==> held(#[trigger] pending[n]) == flow::<B>(
                        model,
                        top,
                        start,
                        n,
                        nodes.len() - 1,
                        0,
                    ),
                forall|i: int|
                    0 <= i < done.len() ==> held(#[trigger] done[i]) == adjoint::<B>(
                        model,
                        top,
                        start,
                        top - i,
                    ),
            decreases nodes.len(),
        {
            let node = nodes.pop().unwrap();
            let incoming = pending.pop().unwrap();
            let ghost c = nodes.len() as int;
            proof {
                assert(node == all[c]);
                assert(node@ == model[c]);
                assert(node_fits(model[c], c));
                assert(held(incoming) == adjoint::<B>(model, top, start, c));
            }
            let mut s: usize = 0;
            while s < node.parents.len()
                invariant
                    model == self@,
                    top == root.index,
                    start == seed.model(),
                    model == models(all),
                    well_formed(model),
                    0 <= c <= top < all.len(),
                    c == nodes.len(),
                    node == all[c],
                    node@ == model[c],
                    nodes@ == all.take(c),
                    pending.len() == c,
                    s <= node.parents.len(),
                    held(incoming) == adjoint::<B>(model, top, start, c),
                    forall|n: int|
                        0 <= n < c ==> held(#[trigger] pending[n]) == flow::<B>(
                            model,
                            top,
                            start,
                            n,
                            c,
                            s as int,
                        ),
                decreases node.parents.len() - s,
            {
                let ghost before = pending@;
                match (node.parents[s], &incoming) {
                    (Some(p), Some(g)) => {
                        proof {
                            assert(model[c].parents[s as int] == Some(p.index as int));
                            assert(nodes[p.index as int] == all[p.index as int]);
                            assert(nodes[p.index as int]@ == model[p.index as int]);
                        }
                        if nodes[p.index].requires_grad {
                            proof {
                                assert(feeds(model, c, s as int, p.index as int));
                            }
                            let ok = match backward_step(&node.op, s, g) {
                                Some(x) => accumulate(&mut pending, p.index, x),
                                None => false,
                            };
                            if !ok {
                                proof {
                                    assert(flow::<B>(
                                        model,
                                        top,
                                        start,
                                        p.index as int,
                                        c,
                                        s as int + 1,
                                    ) is Failed);
                                    failure_stays::<B>(model, top, start, p.index as int, c, s as int + 1);
                                    assert(fails::<B>(model, top, start));
                                }
                                return Err(AutodiffError::ShapeMismatch);
                            }
                        }
                    },
                    _ => {},
                }
                proof {
                    assert forall|n: int| 0 <= n < c implies held(#[trigger] pending[n]) == flow::<B>(
                        model,
                        top,
                        start,
                        n,
                        c,
                        s as int + 1,
                    ) by {
                        assert(held(before[n]) == flow::<B>(model, top, start, n, c, s as int));
                    }
                }
                s = s + 1;
            }
            done.push(incoming);
            proof {
                assert forall|n: int| 0 <= n < nodes.len() implies held(#[trigger] pending[n])
                    == flow::<B>(model, top, start, n, nodes.len() - 1, 0) by {
                    assert(held(pending[n]) == flow::<B>(
                        model,
                        top,
                        start,
                        n,
                        c,
                        node.parents.len() as int,
                    ));
                }
            }
        }
        let mut slots: Vec<Option<B>> = Vec::new();
        while done.len() > 0
            invariant
                model == self@,
                top == root.index,
                start == seed.model(),
                slots.len() + done.len() == top + 1,
                forall|n: int|
                    0 <= n < slots.len() ==> held(#[trigger] slots[n]) == adjoint::<B>(
                        model,
                        top,
                        start,
                        n,
                    ),
                forall|i: int|
                    0 <= i < done.len() ==> held(#[trigger] done[i]) == adjoint::<B>(
                        model,
                        top,
                        start,
                        top - i,
                    ),
            decreases done.len(),
        {
            let g = done.pop().unwrap();
            slots.push(g);
        }
        let grads = Gradients { slots };
        proof {
            assert forall|n: int| 0 <= n <= top implies !(adjoint::<B>(model, top, start, n) is Failed) by {
                assert(held(grads.slots[n]) == adjoint::<B>(model, top, start, n));
            }
            assert(!fails::<B>(model, top, start));
            assert(grads@ =~= gradients::<B>(model, top, start)->Some_0) by {
                assert forall|n: int| 0 <= n <= top implies held(#[trigger] grads.slots[n])
                    == adjoint::<B>(model, top, start, n) by {}
            }
        }
        Ok(grads)
    }

    /// Runs the backward pass from `root`, whose gradient is a tensor of
    /// ones of its own shape. A constant root gives an empty container.
    pub fn backward(self, root: &DualTensor<B>) -> (r: Result<Gradients<B>, AutodiffError>)
        requires
            self.wf(),
        ensures
            match root.node {
                None => r matches Ok(g) && g@ == Map::<int, B::Model>::empty(),
                Some(id) => {
                    let seed = B::ones(root.primitive.model());
                    match r {
                        Ok(g) => id.index < self@.len() && gradients::<B>(self@, id.index as int, seed)
                            == Some(g@),
                        Err(e) => if id.index >= self@.len() {
                            e == AutodiffError::GraphCorruption
                        } else {
                            e == AutodiffError::ShapeMismatch && gradients::<B>(
                                self@,
                                id.index as int,
                                seed,
                            ) is None
                        },
                    }
                },
            },
    {
        match root.node {
            None => Ok(Gradients::new()),
            Some(id) => {
                let seed = root.primitive.ones_like();
                self.backward_from(id, seed)
            },
        }
    }
}

} // verus!
