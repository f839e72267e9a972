use vstd::prelude::*;
use crate::backend::Backend;
use crate::engine::Gradients;
use crate::graph::NodeId;

verus! {

/// A backend tensor together with the node that stands for it in a graph.
/// A tensor without a node is a constant: it receives no gradient.
pub struct DualTensor<B> {
    pub primitive: B,
    pub node: Option<NodeId>,
}

impl<B: Backend> DualTensor<B> {
    /// A constant with the given value.
    pub fn new(primitive: B) -> (t: Self)
        ensures
            t.primitive == primitive,
            t.node is None,
    {
        DualTensor { primitive, node: None }
    }

    /// The gradient that the container holds for this tensor: `None` for a
    /// constant, and for a tensor that the backward pass did not reach.
    pub fn grad<'a>(&self, grads: &'a Gradients<B>) -> (r: Option<&'a B>)
        ensures
            match r {
                Some(g) => self.node matches Some(id) && grads@.contains_key(id.index as int)
                    && g.model() == grads@[id.index as int],
                None => self.node matches Some(id) ==> !grads@.contains_key(id.index as int),
            },
    {
        match self.node {
            Some(id) => grads.get(id),
            None => None,
        }
    }
}

impl<B: Backend> Clone for DualTensor<B> {
    /// A copy of the value that stands for the same node.
    fn clone(&self) -> (t: Self)
        ensures
            t.primitive.model() == self.primitive.model(),
            t.node == self.node,
    {
        DualTensor { primitive: self.primitive.duplicate(), node: self.node }
    }
}

} // verus!
