use vstd::prelude::*;
use crate::backend::Backend;
use crate::error::AutodiffError;

verus! {

/// The identity of a recorded node: its position in creation order.
#[derive(Clone, Copy, Debug, PartialEq, Eq, Structural)]
pub struct NodeId {
    pub index: usize,
}

/// The kind of operation that a node records.
#[derive(Clone, Copy, Debug, PartialEq, Eq, Structural)]
pub enum OpKind {
    Leaf,
    Add,
    Mul,
    MatMul,
    Tanh,
}

/// What a node keeps of the operation that made it: the kind of the
/// operation and the state that its backward formula reads.
pub enum Op<B> {
    /// An input; it has no operands.
    Leaf,
    /// Elementwise addition. The operands' shapes are kept to undo
    /// broadcasting.
    Add { lhs_shape: Vec<usize>, rhs_shape: Vec<usize> },
    /// Elementwise multiplication. Each operand is kept only where the other
    /// one receives a gradient.
    Mul { lhs: Option<B>, rhs: Option<B>, lhs_shape: Vec<usize>, rhs_shape: Vec<usize> },
    /// Matrix multiplication. Each operand is kept only where the other one
    /// receives a gradient.
    MatMul { lhs: Option<B>, rhs: Option<B> },
    /// Hyperbolic tangent. The forward result is kept.
    Tanh { output: B },
}

/// The mathematical value of an [`Op`].
pub enum OpModel<M> {
    Leaf,
    Add { lhs_dims: Seq<usize>, rhs_dims: Seq<usize> },
    Mul { lhs: Option<M>, rhs: Option<M>, lhs_dims: Seq<usize>, rhs_dims: Seq<usize> },
    MatMul { lhs: Option<M>, rhs: Option<M> },
    Tanh { output: M },
}

/// The mathematical value of a node. Its identity and its order are its
/// position in the graph.
pub struct NodeModel<M> {
    /// For each operand, the node that it came from, if it receives a
    /// gradient.
    pub parents: Seq<Option<int>>,
    pub requires_grad: bool,
    pub op: OpModel<M>,
}

/// A recorded operation.
pub struct Node<B> {
    pub id: NodeId,
    /// One entry for each operand: the operand's node, or `None` for an
    /// operand that receives no gradient.
    pub parents: Vec<Option<NodeId>>,
    pub requires_grad: bool,
    /// The rank of the node in creation order.
    pub order: usize,
    pub op: Op<B>,
}

/// The nodes recorded so far, in creation order.
pub struct Graph<B> {
    pub nodes: Vec<Node<B>>,
}

/// The model of a tensor that may be missing.
pub open spec fn model_of<B: Backend>(t: Option<B>) -> Option<B::Model> {
    match t {
        Some(x) => Some(x.model()),
        None => None,
    }
}

/// A parent link as a position.
pub open spec fn position(link: Option<NodeId>) -> Option<int> {
    match link {
        Some(id) => Some(id.index as int),
        None => None,
    }
}

/// The parent links as positions.
pub open spec fn links(parents: Seq<Option<NodeId>>) -> Seq<Option<int>> {
    Seq::new(parents.len(), |s: int| position(parents[s]))
}

/// The kind of an operation.
pub open spec fn kind_of<M>(op: OpModel<M>) -> OpKind {
    match op {
        OpModel::Leaf => OpKind::Leaf,
        OpModel::Add { .. } => OpKind::Add,
        OpModel::Mul { .. } => OpKind::Mul,
        OpModel::MatMul { .. } => OpKind::MatMul,
        OpModel::Tanh { .. } => OpKind::Tanh,
    }
}

/// The number of operands of an operation.
pub open spec fn arity_of<M>(op: OpModel<M>) -> nat {
    match op {
        OpModel::Leaf => 0,
        OpModel::Add { .. } => 2,
        OpModel::Mul { .. } => 2,
        OpModel::MatMul { .. } => 2,
        OpModel::Tanh { .. } => 1,
    }
}

/// Whether the operation kept what the backward formula of each linked
/// operand reads: for a product, the other operand.
pub open spec fn keeps_state<M>(op: OpModel<M>, parents: Seq<Option<int>>) -> bool {
    match op {
        OpModel::Mul { lhs, rhs, .. } => (parents[0] is Some ==> rhs is Some) && (parents[1] is Some
            ==> lhs is Some),
        OpModel::MatMul { lhs, rhs } => (parents[0] is Some ==> rhs is Some) && (parents[1] is Some
            ==> lhs is Some),
        _ => true,
    }
}

/// Whether a node can stand at position `at`: it has one link for each
/// operand, every link points to an earlier node, and the state that the
/// backward formulas read was kept.
pub open spec fn node_fits<M>(node: NodeModel<M>, at: int) -> bool {
    &&& node.parents.len() == arity_of(node.op)
    &&& forall|s: int|
        0 <= s < node.parents.len() ==> (#[trigger] node.parents[s] matches Some(p) ==> 0 <= p < at)
    &&& keeps_state(node.op, node.parents)
}

/// Whether every node fits its position. Links then point only to earlier
/// nodes, so the graph has no cycle.
pub open spec fn well_formed<M>(nodes: Seq<NodeModel<M>>) -> bool {
    forall|i: int| 0 <= i < nodes.len() ==> node_fits(#[trigger] nodes[i], i)
}

/// Whether some operand of the node is linked to node `x`.
pub open spec fn consumes<M>(node: NodeModel<M>, x: int) -> bool {
    exists|s: int| 0 <= s < node.parents.len() && #[trigger] node.parents[s] == Some(x)
}

/// The number of nodes among the first `upto` that use node `x` as an
/// operand.
pub open spec fn consumers<M>(nodes: Seq<NodeModel<M>>, x: int, upto: int) -> nat
    decreases upto,
{
    if upto <= 0 {
        0
    } else {
        consumers(nodes, x, upto - 1) + if consumes(nodes[upto - 1], x) {
            1nat
        } else {
            0nat
        }
    }
}

impl<B: Backend> Op<B> {
    pub open spec fn view(&self) -> OpModel<B::Model> {
        match *self {
            Op::Leaf => OpModel::Leaf,
            Op::Add { lhs_shape, rhs_shape } => OpModel::Add {
                lhs_dims: lhs_shape@,
                rhs_dims: rhs_shape@,
            },
            Op::Mul { lhs, rhs, lhs_shape, rhs_shape } => OpModel::Mul {
                lhs: model_of(lhs),
                rhs: model_of(rhs),
                lhs_dims: lhs_shape@,
                rhs_dims: rhs_shape@,
            },
            Op::MatMul { lhs, rhs } => OpModel::MatMul { lhs: model_of(lhs), rhs: model_of(rhs) },
            Op::Tanh { output } => OpModel::Tanh { output: output.model() },
        }
    }

    /// The kind of the operation.
    pub fn kind(&self) -> (k: OpKind)
        ensures
            k == kind_of(self@),
    {
        match self {
            Op::Leaf => OpKind::Leaf,
            Op::Add { .. } => OpKind::Add,
            Op::Mul { .. } => OpKind::Mul,
            Op::MatMul { .. } => OpKind::MatMul,
            Op::Tanh { .. } => OpKind::Tanh,
        }
    }

    /// The number of operands.
    pub fn arity(&self) -> (n: usize)
        ensures
            n == arity_of(self@),
    {
        match self {
            Op::Leaf => 0,
            Op::Tanh { .. } => 1,
            _ => 2,
        }
    }

    /// Whether the state that the linked operands' formulas read was kept.
    fn keeps_state_for(&self, parents: &Vec<Option<NodeId>>) -> (ok: bool)
        requires
            parents.len() == arity_of(self@),
        ensures
            ok == keeps_state(self@, links(parents@)),
    {
        match self {
            Op::Mul { lhs, rhs, .. } => (parents[0].is_none() || rhs.is_some()) && (
            parents[1].is_none() || lhs.is_some()),
            Op::MatMul { lhs, rhs } => (parents[0].is_none() || rhs.is_some()) && (
            parents[1].is_none() || lhs.is_some()),
            _ => true,
        }
    }
}

impl<B: Backend> Node<B> {
    pub open spec fn view(&self) -> NodeModel<B::Model> {
        NodeModel { parents: links(self.parents@), requires_grad: self.requires_grad, op: self.op@ }
    }

    /// The kind of operation that the node records.
    pub fn op_kind(&self) -> (k: OpKind)
        ensures
            k == kind_of(self@.op),
    {
        self.op.kind()
    }

    /// Whether some operand of the node is linked to `id`.
    pub fn uses(&self, id: NodeId) -> (r: bool)
        ensures
            r == consumes(self@, id.index as int),
    {
        let mut s: usize = 0;
        while s < self.parents.len()
            invariant
                s <= self.parents.len(),
                forall|t: int| 0 <= t < s ==> #[trigger] self@.parents[t] != Some(id.index as int),
            decreases self.parents.len() - s,
        {
            match self.parents[s] {
                Some(p) => {
                    if p.index == id.index {
                        assert(self@.parents[s as int] == Some(id.index as int));
                        return true;
                    }
                },
                None => {},
            }
            s = s + 1;
        }
        false
    }
}

/// The models of a run of nodes.
pub open spec fn models<B: Backend>(nodes: Seq<Node<B>>) -> Seq<NodeModel<B::Model>> {
    Seq::new(nodes.len(), |i: int| nodes[i]@)
}

impl<B: Backend> Graph<B> {
    pub open spec fn view(&self) -> Seq<NodeModel<B::Model>> {
        models(self.nodes@)
    }

    /// Every node carries its position as identity and order, and fits it.
    pub open spec fn wf(&self) -> bool {
        &&& forall|i: int|
            0 <= i < self.nodes.len() ==> (#[trigger] self.nodes[i]).id.index == i
                && self.nodes[i].order == i
        &&& well_formed(self@)
    }

    /// A graph without nodes.
    pub fn new() -> (g: Self)
        ensures
            g.wf(),
            g@ == Seq::<NodeModel<B::Model>>::empty(),
    {
        let g = Graph { nodes: Vec::new() };
        assert(g@ =~= Seq::<NodeModel<B::Model>>::empty());
        g
    }

    /// The number of nodes.
    pub fn len(&self) -> (n: usize)
        ensures
            n == self@.len(),
    {
        self.nodes.len()
    }

    /// Whether every link of `parents` names a node of this graph.
    fn holds_all(&self, parents: &Vec<Option<NodeId>>) -> (ok: bool)
        ensures
            ok == forall|s: int|
                0 <= s < parents.len() ==> (#[trigger] links(parents@)[s] matches Some(p) ==> 0 <= p
                    < self.nodes.len()),
    {
        let mut s: usize = 0;
        while s < parents.len()
            invariant
                s <= parents.len(),
                forall|t: int|
                    0 <= t < s ==> (#[trigger] links(parents@)[t] matches Some(p) ==> 0 <= p
                        < self.nodes.len()),
            decreases parents.len() - s,
        {
            match parents[s] {
                Some(id) => {
                    if id.index >= self.nodes.len() {
                        assert(links(parents@)[s as int] == Some(id.index as int));
                        return false;
                    }
                },
                None => {},
            }
            s = s + 1;
        }
        true
    }

    /// Records a node and returns its identity: the number of nodes recorded
    /// before it.
    ///
    /// The node is refused, and the graph left as it was, where it does not
    /// fit: a link that names no node of the graph, a number of links other
    /// than the operation's number of operands, or a product that did not
    /// keep the operand that a linked operand's formula reads.
    pub fn create_node(&mut self, parents: Vec<Option<NodeId>>, op: Op<B>, requires_grad: bool) -> (r:
        Result<NodeId, AutodiffError>)
        requires
            old(self).wf(),
        ensures
            final(self).wf(),
            ({
                let node = NodeModel { parents: links(parents@), requires_grad, op: op@ };
                match r {
                    Ok(id) => {
                        &&& node_fits(node, old(self)@.len() as int)
                        &&& id.index == old(self)@.len()
                        &&& final(self)@ == old(self)@.push(node)
                    },
                    Err(e) => {
                        &&& !node_fits(node, old(self)@.len() as int)
                        &&& e == AutodiffError::GraphCorruption
                        &&& *final(self) == *old(self)
                    },
                }
            }),
    {
        if parents.len() != op.arity() || !self.holds_all(&parents) || !op.keeps_state_for(&parents) {
            return Err(AutodiffError::GraphCorruption);
        }
        let index = self.nodes.len();
        let id = NodeId { index };
        let node = Node { id, parents, requires_grad, order: index, op };
        self.nodes.push(node);
        proof {
            assert(self@ =~= old(self)@.push(node@));
            assert forall|i: int| 0 <= i < self@.len() implies node_fits(#[trigger] self@[i], i) by {
                if i < index {
                    assert(self@[i] == old(self)@[i]);
                }
            }
        }
        Ok(id)
    }

    /// The node that `id` names, or `GraphCorruption` where it names none.
    pub fn get(&self, id: NodeId) -> (r: Result<&Node<B>, AutodiffError>)
        ensures
            match r {
                Ok(node) => id.index < self.nodes.len() && *node == self.nodes[id.index as int],
                Err(e) => id.index >= self.nodes.len() && e == AutodiffError::GraphCorruption,
            },
    {
        if id.index < self.nodes.len() {
            Ok(&self.nodes[id.index])
        } else {
            Err(AutodiffError::GraphCorruption)
        }
    }

    /// Whether the node that `id` names receives a gradient, or
    /// `GraphCorruption` where it names none.
    pub fn requires_grad(&self, id: NodeId) -> (r: Result<bool, AutodiffError>)
        ensures
            match r {
                Ok(b) => id.index < self@.len() && b == self@[id.index as int].requires_grad,
                Err(e) => id.index >= self@.len() && e == AutodiffError::GraphCorruption,
            },
    {
        if id.index < self.nodes.len() {
            Ok(self.nodes[id.index].requires_grad)
        } else {
            Err(AutodiffError::GraphCorruption)
        }
    }
    /// Whether the node at position `i` fits it: every link names an earlier
    /// node.
    fn links_point_back(&self, i: usize) -> (ok: bool)
        requires
            i < self.nodes.len(),
        ensures
            ok == forall|s: int|
                0 <= s < self@[i as int].parents.len() ==> (
                #[trigger] self@[i as int].parents[s] matches Some(p) ==> 0 <= p < i),
    {
        let node = &self.nodes[i];
        let mut s: usize = 0;
        while s < node.parents.len()
            invariant
                i < self.nodes.len(),
                *node == self.nodes[i as int],
                s <= node.parents.len(),
                forall|t: int|
                    0 <= t < s ==> (#[trigger] self@[i as int].parents[t] matches Some(p) ==> 0 <= p
                        < i),
            decreases node.parents.len() - s,
        {
            match node.parents[s] {
                Some(id) => {
                    if id.index >= i {
                        assert(self@[i as int].parents[s as int] == Some(id.index as int));
                        return false;
                    }
                },
                None => {},
            }
            s = s + 1;
        }
        true
    }

    /// Checks the graph: `Ok` where it is well formed, and
    /// `GraphCorruption` where it is not.
    pub fn validate(&self) -> (r: Result<(), AutodiffError>)
        ensures
            match r {
                Ok(_) => self.wf(),
                Err(e) => !self.wf() && e == AutodiffError::GraphCorruption,
            },
    {
        let mut i: usize = 0;
        while i < self.nodes.len()
            invariant
                i <= self.nodes.len(),
                forall|k: int|
                    0 <= k < i ==> (#[trigger] self.nodes[k]).id.index == k && self.nodes[k].order
                        == k,
                forall|k: int| 0 <= k < i ==> node_fits(#[trigger] self@[k], k),
            decreases self.nodes.len() - i,
        {
            let node = &self.nodes[i];
            if node.id.index != i || node.order != i {
                return Err(AutodiffError::GraphCorruption);
            }
            if node.parents.len() != node.op.arity() || !self.links_point_back(i)
                || !node.op.keeps_state_for(&node.parents) {
                assert(!node_fits(self@[i as int], i as int));
                return Err(AutodiffError::GraphCorruption);
            }
            i = i + 1;
        }
        Ok(())
    }

    /// The fan-out of the node that `id` names, that is the number of nodes
    /// that use it as an operand, or `GraphCorruption` where it names none.
    pub fn fan_out(&self, id: NodeId) -> (r: Result<usize, AutodiffError>)
        ensures
            match r {
                Ok(n) => id.index < self@.len() && n == consumers(
                    self@,
                    id.index as int,
                    self@.len() as int,
                ),
                Err(e) => id.index >= self@.len() && e == AutodiffError::GraphCorruption,
            },
    {
        if id.index >= self.nodes.len() {
            return Err(AutodiffError::GraphCorruption);
        }
        let mut count: usize = 0;
        let mut i: usize = 0;
        while i < self.nodes.len()
            invariant
                i <= self.nodes.len(),
                count <= i,
                count == consumers(self@, id.index as int, i as int),
            decreases self.nodes.len() - i,
        {
            if self.nodes[i].uses(id) {
                count = count + 1;
            }
            i = i + 1;
        }
        Ok(count)
    }
}

} // verus!
