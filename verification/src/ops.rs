use vstd::prelude::*;
use crate::backend::{Activation, Backend};
use crate::error::AutodiffError;
use crate::graph::{links, node_fits, position, Graph, NodeId, NodeModel, Op, OpModel};
use crate::tensor::DualTensor;

verus! {

/// Whether a tensor names a node that the graph does not have.
pub open spec fn stale<M>(nodes: Seq<NodeModel<M>>, node: Option<NodeId>) -> bool {
    node matches Some(id) && id.index >= nodes.len()
}

/// The link that a tensor contributes as an operand: its node where that
/// node receives gradients, and none for a constant.
pub open spec fn link_of<M>(nodes: Seq<NodeModel<M>>, node: Option<NodeId>) -> Option<int> {
    match node {
        Some(id) => if id.index < nodes.len() && nodes[id.index as int].requires_grad {
            Some(id.index as int)
        } else {
            None
        },
        None => None,
    }
}

/// How an operation with the operand links `parents` leaves the graph: where
/// no operand receives a gradient the result is a constant and nothing is
/// recorded; otherwise one node is appended, and the result stands for it.
pub open spec fn recorded<M>(
    before: Seq<NodeModel<M>>,
    after: Seq<NodeModel<M>>,
    node: Option<NodeId>,
    parents: Seq<Option<int>>,
    op: OpModel<M>,
) -> bool {
    if forall|s: int| 0 <= s < parents.len() ==> parents[s] is None {
        node is None && after == before
    } else {
        &&& node matches Some(id) && id.index == before.len()
        &&& after == before.push(NodeModel { parents, requires_grad: true, op })
    }
}

impl<B: Backend> Graph<B> {
    /// The link that `t` contributes as an operand, or `GraphCorruption`
    /// where `t` names a node that this graph does not have.
    fn link(&self, t: &DualTensor<B>) -> (r: Result<Option<NodeId>, AutodiffError>)
        ensures
            match r {
                Ok(l) => {
                    &&& !stale(self@, t.node)
                    &&& position(l) == link_of(self@, t.node)
                    &&& l matches Some(id) ==> id.index < self@.len()
                },
                Err(e) => stale(self@, t.node) && e == AutodiffError::GraphCorruption,
            },
    {
        match t.node {
            None => Ok(None),
            Some(id) => {
                if id.index >= self.nodes.len() {
                    Err(AutodiffError::GraphCorruption)
                } else if self.nodes[id.index].requires_grad {
                    Ok(Some(id))
                } else {
                    Ok(None)
                }
            },
        }
    }

    /// Wraps the result of an operation, and records a node for it where an
    /// operand receives a gradient.
    fn record(&mut self, parents: Vec<Option<NodeId>>, op: Op<B>, primitive: B) -> (out: DualTensor<B>)
        requires
            old(self).wf(),
            node_fits(
                NodeModel { parents: links(parents@), requires_grad: true, op: op@ },
                old(self)@.len() as int,
            ),
        ensures
            final(self).wf(),
            out.primitive == primitive,
            recorded(old(self)@, final(self)@, out.node, links(parents@), op@),
    {
        let mut linked = false;
        let mut s: usize = 0;
        while s < parents.len()
            invariant
                s <= parents.len(),
                linked == exists|t: int| 0 <= t < s && links(parents@)[t] is Some,
            decreases parents.len() - s,
        {
            if parents[s].is_some() {
                assert(links(parents@)[s as int] is Some);
                linked = true;
            }
            s = s + 1;
        }
        if !linked {
            return DualTensor { primitive, node: None };
        }
        match self.create_node(parents, op, true) {
            Ok(id) => DualTensor { primitive, node: Some(id) },
            Err(_) => DualTensor { primitive, node: None },
        }
    }

    /// Makes `tensor` an input that receives a gradient: a leaf node is
    /// recorded for it.
    pub fn require_grad(&mut self, tensor: DualTensor<B>) -> (out: DualTensor<B>)
        requires
            old(self).wf(),
        ensures
            final(self).wf(),
            out.primitive == tensor.primitive,
            out.node matches Some(id) && id.index == old(self)@.len(),
            final(self)@ == old(self)@.push(
                NodeModel {
                    parents: Seq::<Option<int>>::empty(),
                    requires_grad: true,
                    op: OpModel::Leaf,
                },
            ),
    {
        let parents: Vec<Option<NodeId>> = Vec::new();
        assert(links(parents@) =~= Seq::<Option<int>>::empty());
        match self.create_node(parents, Op::Leaf, true) {
            Ok(id) => DualTensor { primitive: tensor.primitive, node: Some(id) },
            Err(_) => tensor,
        }
    }

    /// The elementwise sum of two tensors.
    ///
    /// Fails with `GraphCorruption` where an operand names a node that the
    /// graph does not have, and with `ShapeMismatch` where the backend
    /// rejects the operands; the graph is then left as it was.
    pub fn add(&mut self, a: &DualTensor<B>, b: &DualTensor<B>) -> (r: Result<
        DualTensor<B>,
        AutodiffError,
    >)
        requires
            old(self).wf(),
        ensures
            final(self).wf(),
            ({
                let value = B::sum(a.primitive.model(), b.primitive.model());
                let corrupt = stale(old(self)@, a.node) || stale(old(self)@, b.node);
                match r {
                    Ok(out) => {
                        &&& !corrupt
                        &&& value == Some(out.primitive.model())
                        &&& recorded(
                            old(self)@,
                            final(self)@,
                            out.node,
                            seq![link_of(old(self)@, a.node), link_of(old(self)@, b.node)],
                            OpModel::Add {
                                lhs_dims: B::dims(a.primitive.model()),
                                rhs_dims: B::dims(b.primitive.model()),
                            },
                        )
                    },
                    Err(e) => {
                        &&& *final(self) == *old(self)
                        &&& corrupt || value is None
                        &&& e == if corrupt {
                            AutodiffError::GraphCorruption
                        } else {
                            AutodiffError::ShapeMismatch
                        }
                    },
                }
            }),
    {
        let la = self.link(a)?;
        let lb = self.link(b)?;
        let value = match a.primitive.add(&b.primitive) {
            Some(v) => v,
            None => { return Err(AutodiffError::ShapeMismatch); },
        };
        let op = Op::Add { lhs_shape: a.primitive.shape(), rhs_shape: b.primitive.shape() };
        let mut parents: Vec<Option<NodeId>> = Vec::new();
        parents.push(la);
        parents.push(lb);
        proof {
            assert(links(parents@) =~= seq![link_of(self@, a.node), link_of(self@, b.node)]);
        }
        Ok(self.record(parents, op, value))
    }

    /// The elementwise product of two tensors. Each operand is kept for the
    /// backward pass only where the other one receives a gradient.
    ///
    /// Fails as `add` does.
    pub fn mul(&mut self, a: &DualTensor<B>, b: &DualTensor<B>) -> (r: Result<
        DualTensor<B>,
        AutodiffError,
    >)
        requires
            old(self).wf(),
        ensures
            final(self).wf(),
            ({
                let value = B::product(a.primitive.model(), b.primitive.model());
                let corrupt = stale(old(self)@, a.node) || stale(old(self)@, b.node);
                let la = link_of(old(self)@, a.node);
                let lb = link_of(old(self)@, b.node);
                match r {
                    Ok(out) => {
                        &&& !corrupt
                        &&& value == Some(out.primitive.model())
                        &&& recorded(
                            old(self)@,
                            final(self)@,
                            out.node,
                            seq![la, lb],
                            OpModel::Mul {
                                lhs: if lb is Some {
                                    Some(a.primitive.model())
                                } else {
                                    None
                                },
                                rhs: if la is Some {
                                    Some(b.primitive.model())
                                } else {
                                    None
                                },
                                lhs_dims: B::dims(a.primitive.model()),
                                rhs_dims: B::dims(b.primitive.model()),
                            },
                        )
                    },
                    Err(e) => {
                        &&& *final(self) == *old(self)
                        &&& corrupt || value is None
                        &&& e == if corrupt {
                            AutodiffError::GraphCorruption
                        } else {
                            AutodiffError::ShapeMismatch
                        }
                    },
                }
            }),
    {
        let la = self.link(a)?;
        let lb = self.link(b)?;
        let value = match a.primitive.mul(&b.primitive) {
            Some(v) => v,
            None => { return Err(AutodiffError::ShapeMismatch); },
        };
        let lhs = if lb.is_some() {
            Some(a.primitive.duplicate())
        } else {
            None
        };
        let rhs = if la.is_some() {
            Some(b.primitive.duplicate())
        } else {
            None
        };
        let op = Op::Mul { lhs, rhs, lhs_shape: a.primitive.shape(), rhs_shape: b.primitive.shape() };
        let mut parents: Vec<Option<NodeId>> = Vec::new();
        parents.push(la);
        parents.push(lb);
        proof {
            assert(links(parents@) =~= seq![link_of(self@, a.node), link_of(self@, b.node)]);
        }
        Ok(self.record(parents, op, value))
    }

    /// The matrix product of two tensors. Each operand is kept for the
    /// backward pass only where the other one receives a gradient.
    ///
    /// Fails as `add` does.
    pub fn matmul(&mut self, a: &DualTensor<B>, b: &DualTensor<B>) -> (r: Result<
        DualTensor<B>,
        AutodiffError,
    >)
        requires
            old(self).wf(),
        ensures
            final(self).wf(),
            ({
                let value = B::matrix_product(a.primitive.model(), b.primitive.model());
                let corrupt = stale(old(self)@, a.node) || stale(old(self)@, b.node);
                let la = link_of(old(self)@, a.node);
                let lb = link_of(old(self)@, b.node);
                match r {
                    Ok(out) => {
                        &&& !corrupt
                        &&& value == Some(out.primitive.model())
                        &&& recorded(
                            old(self)@,
                            final(self)@,
                            out.node,
                            seq![la, lb],
                            OpModel::MatMul {
                                lhs: if lb is Some {
                                    Some(a.primitive.model())
                                } else {
                                    None
                                },
                                rhs: if la is Some {
                                    Some(b.primitive.model())
                                } else {
                                    None
                                },
                            },
                        )
                    },
                    Err(e) => {
                        &&& *final(self) == *old(self)
                        &&& corrupt || value is None
                        &&& e == if corrupt {
                            AutodiffError::GraphCorruption
                        } else {
                            AutodiffError::ShapeMismatch
                        }
                    },
                }
            }),
    {
        let la = self.link(a)?;
        let lb = self.link(b)?;
        let value = match a.primitive.matmul(&b.primitive) {
            Some(v) => v,
            None => { return Err(AutodiffError::ShapeMismatch); },
        };
        let lhs = if lb.is_some() {
            Some(a.primitive.duplicate())
        } else {
            None
        };
        let rhs = if la.is_some() {
            Some(b.primitive.duplicate())
        } else {
            None
        };
        let op = Op::MatMul { lhs, rhs };
        let mut parents: Vec<Option<NodeId>> = Vec::new();
        parents.push(la);
        parents.push(lb);
        proof {
            assert(links(parents@) =~= seq![link_of(self@, a.node), link_of(self@, b.node)]);
        }
        Ok(self.record(parents, op, value))
    }
}

impl<B: Activation> Graph<B> {
    /// The elementwise hyperbolic tangent of a tensor. The result is kept
    /// for the backward pass.
    ///
    /// Fails with `GraphCorruption` where the operand names a node that the
    /// graph does not have; the graph is then left as it was.
    pub fn tanh(&mut self, a: &DualTensor<B>) -> (r: Result<DualTensor<B>, AutodiffError>)
        requires
            old(self).wf(),
        ensures
            final(self).wf(),
            ({
                let value = B::tanh_of(a.primitive.model());
                match r {
                    Ok(out) => {
                        &&& !stale(old(self)@, a.node)
                        &&& out.primitive.model() == value
                        &&& recorded(
                            old(self)@,
                            final(self)@,
                            out.node,
                            seq![link_of(old(self)@, a.node)],
                            OpModel::Tanh { output: value },
                        )
                    },
                    Err(e) => {
                        &&& *final(self) == *old(self)
                        &&& stale(old(self)@, a.node)
                        &&& e == AutodiffError::GraphCorruption
                    },
                }
            }),
    {
        let la = self.link(a)?;
        let value = a.primitive.tanh();
        let op = Op::Tanh { output: value.duplicate() };
        let mut parents: Vec<Option<NodeId>> = Vec::new();
        parents.push(la);
        proof {
            assert(links(parents@) =~= seq![link_of(self@, a.node)]);
        }
        Ok(self.record(parents, op, value))
    }
}

} // verus!
