use crate::kernel::NodeTypeClass;
use vstd::prelude::*;

verus! {

/// Whether a graph records for differentiation or to be replayed later.
#[derive(Clone, Copy, Debug, PartialEq, Eq, Structural)]
pub enum ComputationGraphMode {
    Standard,
    Lock,
}

/// Why an operation on scalars was turned down.
#[derive(Clone, Copy, Debug, PartialEq, Eq, Structural)]
pub enum AdError {
    /// The two recorded operands of `operation` come from graphs of different
    /// modes; the identities are those that the operands carry.
    KindMismatch { operation: NodeTypeClass, lhs_graph: usize, rhs_graph: usize },
    /// The two recorded operands of `operation` come from different graphs;
    /// the identities are those that the operands carry.
    GraphMismatch { operation: NodeTypeClass, lhs_graph: usize, rhs_graph: usize },
    /// A handle, or a set of derivatives, was issued under the identity
    /// `handle_graph`, before the last reset of the graph or by another graph;
    /// the graph has the identity `graph`.
    StaleHandle { handle_graph: usize, graph: usize },
    /// A plain number stands where a recorded scalar is needed.
    NotRecorded,
    /// The value to differentiate is infinite or no number.
    NonFiniteSeed,
}

/// A handle to one node of a graph. It owns nothing: the graph's identity at
/// the time of issue and the node's index are all it holds.
#[allow(non_camel_case_types)]
#[derive(Clone, Copy, Debug, PartialEq, Eq, Structural)]
pub struct f64ad_var {
    pub computation_graph_id: usize,
    pub node_idx: usize,
    pub mode: ComputationGraphMode,
}

impl f64ad_var {
    pub fn new(computation_graph_id: usize, node_idx: usize, mode: ComputationGraphMode) -> (r:
        Self)
        ensures
            r == (f64ad_var { computation_graph_id, node_idx, mode }),
    {
        f64ad_var { computation_graph_id, node_idx, mode }
    }

    pub fn computation_graph_id(&self) -> (r: usize)
        ensures
            r == self.computation_graph_id,
    {
        self.computation_graph_id
    }

    pub fn node_idx(&self) -> (r: usize)
        ensures
            r == self.node_idx,
    {
        self.node_idx
    }
}

/// A number that is either plain or recorded on a graph.
#[allow(non_camel_case_types)]
#[derive(Clone, Copy, Debug, PartialEq, Eq, Structural)]
pub enum f64ad {
    /// A recorded scalar: its value is that of its node.
    Var(f64ad_var),
    /// A plain number, given by its word.
    Plain(u64),
}

/// The two kinds of scalar.
#[derive(Clone, Copy, Debug, PartialEq, Eq, Structural)]
pub enum F64adType {
    Plain,
    Var,
}

impl f64ad {
    /// The plain number whose word is `v`.
    pub fn from_bits(v: u64) -> (r: Self)
        ensures
            r == f64ad::Plain(v),
    {
        f64ad::Plain(v)
    }

    pub fn map_to_type(&self) -> (r: F64adType)
        ensures
            r == (if *self is Plain {
                F64adType::Plain
            } else {
                F64adType::Var
            }),
    {
        match self {
            f64ad::Plain(_) => F64adType::Plain,
            f64ad::Var(_) => F64adType::Var,
        }
    }

    /// The index of the node behind a recorded scalar; a plain number has none.
    pub fn node_idx(&self) -> (r: usize)
        requires
            *self is Var,
        ensures
            r == self->Var_0.node_idx,
    {
        match self {
            f64ad::Var(v) => v.node_idx,
            f64ad::Plain(_) => 0,
        }
    }
}

impl Default for f64ad {
    fn default() -> (r: Self)
        ensures
            r == f64ad::Plain(0),
    {
        f64ad::Plain(0)
    }
}

} // verus!
