use vstd::prelude::*;

verus! {

/// The ways in which the engine fails.
#[derive(Clone, Copy, Debug, PartialEq, Eq, Structural)]
pub enum AutodiffError {
    /// A node identifier does not name a node of the graph, or a node that is
    /// to be recorded does not fit the graph.
    GraphCorruption,
    /// A gradient was asked of a container that holds none for the node.
    MissingGradient,
    /// The backend rejected the operands of an operation.
    ShapeMismatch,
}

impl AutodiffError {
    /// A short description of the error.
    pub fn message(&self) -> (text: &'static str)
        ensures
            text@ == (match *self {
                AutodiffError::GraphCorruption => "graph corruption"@,
                AutodiffError::MissingGradient => "missing gradient"@,
                AutodiffError::ShapeMismatch => "shape mismatch"@,
            }),
    {
        match self {
            AutodiffError::GraphCorruption => "graph corruption",
            AutodiffError::MissingGradient => "missing gradient",
            AutodiffError::ShapeMismatch => "shape mismatch",
        }
    }
}

} // verus!
