use vstd::prelude::*;
use crate::kinds::{NodeKind, ControlKind, GasKind, control_title, control_inputs, control_outputs, gas_title, gas_inputs, gas_outputs};
use crate::routing::provides_value;
use crate::wiring::{OutputPin, InputPin, ConnectPlan, rewire_plan, rewire_plan_spec, canvas_allows};

verus! {

/// Title of any node.
pub open spec fn node_title(k: NodeKind) -> Seq<char> {
    match k {
        NodeKind::Gas(g) => gas_title(g),
        NodeKind::Control(c) => control_title(c),
    }
}

/// Number of input pins of any node.
pub open spec fn node_inputs(k: NodeKind) -> nat {
    match k {
        NodeKind::Gas(g) => gas_inputs(g),
        NodeKind::Control(c) => control_inputs(c),
    }
}

/// Number of output pins of any node.
pub open spec fn node_outputs(k: NodeKind) -> nat {
    match k {
        NodeKind::Gas(g) => gas_outputs(g),
        NodeKind::Control(c) => control_outputs(c),
    }
}

/// The viewer of the whole graph canvas: it hands each question on to the
/// node's own kind and decides which wires the user may draw.
pub struct Viewer;

impl Viewer {
    pub fn title(&mut self, node: &NodeKind) -> (res: String)
        ensures
            res@ == node_title(*node),
    {
        match node {
            NodeKind::Gas(n) => n.title(),
            NodeKind::Control(n) => n.title(),
        }
    }

    pub fn inputs(&mut self, node: &NodeKind) -> (res: usize)
        ensures
            res == node_inputs(*node),
    {
        match node {
            NodeKind::Gas(n) => n.inputs(),
            NodeKind::Control(n) => n.inputs(),
        }
    }

    pub fn outputs(&mut self, node: &NodeKind) -> (res: usize)
        ensures
            res == node_outputs(*node),
    {
        match node {
            NodeKind::Gas(n) => n.outputs(),
            NodeKind::Control(n) => n.outputs(),
        }
    }

    /// A request to draw a wire from `from` (on a node of kind `from_kind`)
    /// to `to` (on a node of kind `to_kind`), where `remotes` are the output
    /// pins now wired into `to`. A gas node may neither send nor receive a
    /// wire; otherwise the new wire replaces all wires into `to`.
    pub fn connect(
        &mut self,
        from_kind: &NodeKind,
        to_kind: &NodeKind,
        from: OutputPin,
        to: InputPin,
        remotes: &Vec<OutputPin>,
    ) -> (plan: ConnectPlan)
        ensures
            rewire_plan_spec(canvas_allows(*from_kind, *to_kind), from, to, remotes@, plan),
    {
        let from_ok = match from_kind {
            NodeKind::Gas(_) => matches!(to_kind, NodeKind::Control(_)),
            NodeKind::Control(_) => matches!(to_kind, NodeKind::Control(_)),
        };
        let to_ok = match to_kind {
            NodeKind::Gas(_) => matches!(from_kind, NodeKind::Control(_)),
            NodeKind::Control(_) => matches!(from_kind, NodeKind::Control(_)),
        };
        rewire_plan(from_ok && to_ok, from, to, remotes)
    }
}

/// The canvas shows for every node the title and pin counts of its own
/// kind.
pub proof fn lemma_viewer_shows_own_kind(k: NodeKind)
    ensures
        k matches NodeKind::Control(c) ==> node_title(k) == control_title(c) && node_inputs(k)
            == control_inputs(c) && node_outputs(k) == control_outputs(c),
        k matches NodeKind::Gas(g) ==> node_title(k) == gas_title(g) && node_inputs(k)
            == gas_inputs(g) && node_outputs(k) == gas_outputs(g),
{
}

/// A node has an output pin exactly when it is a gas boundary or has a value
/// for others to read (a PID controller, a number input or a lag element),
/// and never more than one.
pub proof fn lemma_output_pins_carry_values(k: NodeKind)
    ensures
        node_outputs(k) <= 1,
        node_outputs(k) == 1 <==> (k is Gas || provides_value(k)),
{
}

/// A PID controller has two inputs, a lag element one, a number input none,
/// and a number output or a plot as many as it was given; a gas boundary as
/// many as it was given.
pub proof fn lemma_input_pin_counts(k: NodeKind)
    ensures
        k == NodeKind::Control(ControlKind::Pid) ==> node_inputs(k) == 2,
        k == NodeKind::Control(ControlKind::Pt1) ==> node_inputs(k) == 1,
        k == NodeKind::Control(ControlKind::NumInput) ==> node_inputs(k) == 0,
        forall|n: usize|
            (k == NodeKind::Control(ControlKind::NumOutput(n)) || k == NodeKind::Control(
                ControlKind::Plot(n),
            ) || k == NodeKind::Gas(GasKind::Boundary(n))) ==> node_inputs(k) == n,
{
}

} // verus!
