use vstd::prelude::*;
use crate::backend::Backend;
use crate::graph::{NodeModel, OpModel};

verus! {

/// What a node has received at some point of a backward pass.
pub enum Adjoint<M> {
    /// Nothing: no gradient has reached the node.
    Absent,
    /// The sum of what has reached the node.
    Value(M),
    /// A backend operation on the way to the node was not defined.
    Failed,
}

/// The backward formula of an operation: what the operand in `slot` receives
/// of the gradient `g` of the result. `None` where a backend operation is
/// not defined, or the state that the formula reads was not kept.
///
/// - sum: `g`, summed down to the operand's shape;
/// - product: `g` times the other operand, summed down to the operand's shape;
/// - matrix product `a b`: `g` times `b` transposed for `a`, and `a`
///   transposed times `g` for `b`;
/// - hyperbolic tangent with result `y`: `g` times `1 - y * y`.
pub open spec fn vjp<B: Backend>(op: OpModel<B::Model>, slot: int, g: B::Model) -> Option<B::Model> {
    match op {
        OpModel::Leaf => None,
        OpModel::Add { lhs_dims, rhs_dims } => B::reduced(
            g,
            if slot == 0 {
                lhs_dims
            } else {
                rhs_dims
            },
        ),
        OpModel::Mul { lhs, rhs, lhs_dims, rhs_dims } => {
            let other = if slot == 0 {
                rhs
            } else {
                lhs
            };
            let dims = if slot == 0 {
                lhs_dims
            } else {
                rhs_dims
            };
            match other {
                Some(o) => match B::product(g, o) {
                    Some(p) => B::reduced(p, dims),
                    None => None,
                },
                None => None,
            }
        },
        OpModel::MatMul { lhs, rhs } => if slot == 0 {
            match rhs {
                Some(b) => match B::transposed(b) {
                    Some(bt) => B::matrix_product(g, bt),
                    None => None,
                },
                None => None,
            }
        } else {
            match lhs {
                Some(a) => match B::transposed(a) {
                    Some(at) => B::matrix_product(at, g),
                    None => None,
                },
                None => None,
            }
        },
        OpModel::Tanh { output } => match B::product(output, output) {
            Some(square) => match B::difference(B::ones(output), square) {
                Some(slope) => B::product(g, slope),
                None => None,
            },
            None => None,
        },
    }
}

/// What an operand receives from a node whose own adjoint is `incoming`.
pub open spec fn pushed<B: Backend>(op: OpModel<B::Model>, slot: int, incoming: Adjoint<
    B::Model,
>) -> Adjoint<B::Model> {
    match incoming {
        Adjoint::Value(g) => match vjp::<B>(op, slot, g) {
            Some(x) => Adjoint::Value(x),
            None => Adjoint::Failed,
        },
        Adjoint::Absent => Adjoint::Absent,
        Adjoint::Failed => Adjoint::Failed,
    }
}

/// What a node holds after `arriving` has been accumulated into `held`: the
/// sum where both are values, the one that is a value where only one is.
pub open spec fn join<B: Backend>(held: Adjoint<B::Model>, arriving: Adjoint<B::Model>) -> Adjoint<
    B::Model,
> {
    match (held, arriving) {
        (Adjoint::Failed, _) => Adjoint::Failed,
        (_, Adjoint::Failed) => Adjoint::Failed,
        (h, Adjoint::Absent) => h,
        (Adjoint::Absent, a) => a,
        (Adjoint::Value(x), Adjoint::Value(y)) => match B::sum(x, y) {
            Some(z) => Adjoint::Value(z),
            None => Adjoint::Failed,
        },
    }
}

/// Whether operand `slot` of node `k` is linked to node `n`, and `n` receives
/// gradients.
pub open spec fn feeds<M>(nodes: Seq<NodeModel<M>>, k: int, slot: int, n: int) -> bool {
    &&& 0 <= n < k < nodes.len()
    &&& 0 <= slot < nodes[k].parents.len()
    &&& nodes[k].parents[slot] == Some(n)
    &&& nodes[n].requires_grad
}

/// What node `n` holds in the backward pass from `root` with the gradient
/// `seed`, once every node after `k` and the first `slots` operands of node
/// `k` have sent their share.
///
/// The root starts with the seed and every other node with nothing. Nodes
/// send in decreasing order, each to its operands from the first to the
/// last, and what a node sends is the backward formula of its operation
/// applied to all that the node itself has received.
pub open spec fn flow<B: Backend>(
    nodes: Seq<NodeModel<B::Model>>,
    root: int,
    seed: B::Model,
    n: int,
    k: int,
    slots: int,
) -> Adjoint<B::Model>
    decreases root - n, root - k, slots,
{
    if !(0 <= n <= k <= root) || slots < 0 {
        Adjoint::Absent
    } else if slots > 0 {
        let held = flow::<B>(nodes, root, seed, n, k, slots - 1);
        if feeds(nodes, k, slots - 1, n) {
            join::<B>(
                held,
                pushed::<B>(nodes[k].op, slots - 1, flow::<B>(nodes, root, seed, k, k, 0)),
            )
        } else {
            held
        }
    } else if k < root {
        flow::<B>(nodes, root, seed, n, k + 1, nodes[k + 1].parents.len() as int)
    } else if n == root && nodes[root].requires_grad {
        Adjoint::Value(seed)
    } else {
        Adjoint::Absent
    }
}

/// The adjoint of node `n`: all that it receives in the backward pass from
/// `root` with the gradient `seed`.
pub open spec fn adjoint<B: Backend>(
    nodes: Seq<NodeModel<B::Model>>,
    root: int,
    seed: B::Model,
    n: int,
) -> Adjoint<B::Model> {
    flow::<B>(nodes, root, seed, n, n, 0)
}

/// Whether the backward pass meets a backend operation that is not defined.
pub open spec fn fails<B: Backend>(nodes: Seq<NodeModel<B::Model>>, root: int, seed: B::Model) -> bool {
    exists|n: int| 0 <= n <= root && adjoint::<B>(nodes, root, seed, n) is Failed
}

/// The gradients of the backward pass from `root`: the adjoint of every node
/// that received one, or `None` where the pass fails.
pub open spec fn gradients<B: Backend>(nodes: Seq<NodeModel<B::Model>>, root: int, seed: B::Model) -> Option<
    Map<int, B::Model>,
> {
    if fails::<B>(nodes, root, seed) {
        None
    } else {
        Some(
            Map::new(
                |n: int| 0 <= n <= root && adjoint::<B>(nodes, root, seed, n) is Value,
                |n: int| adjoint::<B>(nodes, root, seed, n)->Value_0,
            ),
        )
    }
}

} // verus!
