use vstd::prelude::*;
use crate::kinds::{NodeKind, ControlKind};
use crate::viewer::node_inputs;
use crate::pins::control_accepts;

verus! {

/// The two inputs of a PID controller.
#[derive(Clone, Copy, Debug, PartialEq, Eq, Structural)]
pub enum PidSlot {
    SetPoint,
    Actual,
}

/// Where a value that arrives on an input pin is stored.
#[derive(Clone, Copy, Debug, PartialEq, Eq, Structural)]
pub enum InputTarget {
    /// One of the two inputs of a PID controller.
    Pid(PidSlot),
    /// The input of a first-order lag element.
    Pt1,
    /// The history of the given channel of a plot.
    PlotChannel(usize),
    /// Nothing takes the value.
    Ignored,
}

/// A value to carry during a simulation step: the value of the node wired
/// into input `input` goes to `target`.
#[derive(Clone, Copy, Debug, PartialEq, Eq, Structural)]
pub struct Delivery {
    pub input: usize,
    pub target: InputTarget,
}

/// What a node does in the compute pass of a simulation step.
#[derive(Clone, Copy, Debug, PartialEq, Eq, Structural)]
pub enum StepAction {
    /// Run the PID controller on its inputs and store its output.
    RunPid,
    /// Run the lag element on its input and store its output.
    RunPt1,
    /// Nothing.
    Idle,
}

/// The PID input fed by pin `input`, if any.
pub open spec fn pid_slot_spec(input: nat) -> Option<PidSlot> {
    if input == 0 {
        Some(PidSlot::SetPoint)
    } else if input == 1 {
        Some(PidSlot::Actual)
    } else {
        None
    }
}

/// How many inputs of a node the simulation reads.
pub open spec fn sim_input_count(k: NodeKind) -> nat {
    match k {
        NodeKind::Control(ControlKind::Pid) => 2,
        NodeKind::Control(ControlKind::Pt1) => 1,
        NodeKind::Control(ControlKind::Plot(n)) => n as nat,
        _ => 0,
    }
}

/// Whether a node has a numeric output value that other nodes can read.
pub open spec fn provides_value(k: NodeKind) -> bool {
    match k {
        NodeKind::Control(ControlKind::Pid) => true,
        NodeKind::Control(ControlKind::NumInput) => true,
        NodeKind::Control(ControlKind::Pt1) => true,
        _ => false,
    }
}

/// Where the simulation stores a value arriving on input `i` of a node.
pub open spec fn sim_target(k: NodeKind, i: nat) -> InputTarget {
    match k {
        NodeKind::Control(ControlKind::Pid) => match pid_slot_spec(i) {
            Some(s) => InputTarget::Pid(s),
            None => InputTarget::Ignored,
        },
        NodeKind::Control(ControlKind::Pt1) => InputTarget::Pt1,
        NodeKind::Control(ControlKind::Plot(_)) => InputTarget::PlotChannel(i as usize),
        _ => InputTarget::Ignored,
    }
}

/// Whether input `i` of a node of kind `k`, whose first wire comes from a
/// node of kind `source` (if any), yields a delivery.
pub open spec fn delivers(k: NodeKind, source: Option<NodeKind>, i: nat) -> bool {
    &&& source matches Some(s) && provides_value(s)
    &&& !(sim_target(k, i) is Ignored)
}

/// The deliveries for the first `n` inputs of a node of kind `k`, where
/// `sources[i]` is the kind of the node wired first into input `i`.
pub open spec fn deliveries(k: NodeKind, sources: Seq<Option<NodeKind>>, n: nat) -> Seq<Delivery>
    decreases n,
{
    if n == 0 {
        Seq::empty()
    } else {
        let i = (n - 1) as nat;
        let before = deliveries(k, sources, i);
        if delivers(k, sources[i as int], i) {
            before.push(Delivery { input: i as usize, target: sim_target(k, i) })
        } else {
            before
        }
    }
}

/// What a node does in the compute pass of a simulation step.
pub open spec fn step_action_spec(k: NodeKind) -> StepAction {
    match k {
        NodeKind::Control(ControlKind::Pid) => StepAction::RunPid,
        NodeKind::Control(ControlKind::Pt1) => StepAction::RunPt1,
        _ => StepAction::Idle,
    }
}

/// The PID input fed by pin `input`: pin 0 is the set point, pin 1 the
/// actual value; a PID controller has no other input pin.
pub fn pid_slot(input: usize) -> (res: Option<PidSlot>)
    ensures
        res == pid_slot_spec(input as nat),
{
    match input {
        0 => Some(PidSlot::SetPoint),
        1 => Some(PidSlot::Actual),
        _ => None,
    }
}

/// How many inputs of a node the simulation reads in a step.
pub fn simulation_input_count(kind: &NodeKind) -> (res: usize)
    ensures
        res == sim_input_count(*kind),
{
    match kind {
        NodeKind::Control(ControlKind::Pid) => 2,
        NodeKind::Control(ControlKind::Pt1) => 1,
        NodeKind::Control(ControlKind::Plot(n)) => *n,
        _ => 0,
    }
}

/// Whether other nodes can read a numeric value from this node.
pub fn output_value_of(kind: &NodeKind) -> (res: bool)
    ensures
        res == provides_value(*kind),
{
    match kind {
        NodeKind::Control(ControlKind::Pid) => true,
        NodeKind::Control(ControlKind::NumInput) => true,
        NodeKind::Control(ControlKind::Pt1) => true,
        _ => false,
    }
}

/// Where the simulation stores a value arriving on input `input`.
pub fn input_target(kind: &NodeKind, input: usize) -> (res: InputTarget)
    ensures
        res == sim_target(*kind, input as nat),
{
    match kind {
        NodeKind::Control(ControlKind::Pid) => match pid_slot(input) {
            Some(s) => InputTarget::Pid(s),
            None => InputTarget::Ignored,
        },
        NodeKind::Control(ControlKind::Pt1) => InputTarget::Pt1,
        NodeKind::Control(ControlKind::Plot(_)) => InputTarget::PlotChannel(input),
        _ => InputTarget::Ignored,
    }
}

/// The gather pass of a simulation step for one node: for each input that
/// the simulation reads (and for which `sources` says what is wired in
/// first), the delivery to make, in the order of the inputs.
pub fn update_node_inputs(kind: &NodeKind, sources: &Vec<Option<NodeKind>>) -> (res: Vec<Delivery>)
    ensures
        res@ == deliveries(
            *kind,
            sources@,
            if sources.len() < sim_input_count(*kind) {
                sources.len() as nat
            } else {
                sim_input_count(*kind)
            },
        ),
{
    let count = simulation_input_count(kind);
    let n = if sources.len() < count {
        sources.len()
    } else {
        count
    };
    let mut res: Vec<Delivery> = Vec::new();
    let mut i: usize = 0;
    while i < n
        invariant
            i <= n,
            n <= sources.len(),
            res@ == deliveries(*kind, sources@, i as nat),
        decreases n - i,
    {
        let target = input_target(kind, i);
        let take = match &sources[i] {
            Some(s) => output_value_of(s) && !matches!(target, InputTarget::Ignored),
            None => false,
        };
        if take {
            res.push(Delivery { input: i, target });
        }
        i = i + 1;
    }
    res
}

/// What a node does in the compute pass of a simulation step.
pub fn process_control_node(kind: &NodeKind) -> (res: StepAction)
    ensures
        res == step_action_spec(*kind),
{
    match kind {
        NodeKind::Control(ControlKind::Pid) => StepAction::RunPid,
        NodeKind::Control(ControlKind::Pt1) => StepAction::RunPt1,
        _ => StepAction::Idle,
    }
}

/// Every delivery of a step targets an input that the simulation reads, in
/// increasing order of inputs, and no two deliveries share an input.
pub proof fn lemma_deliveries_ordered(k: NodeKind, sources: Seq<Option<NodeKind>>, n: nat)
    requires
        n <= usize::MAX,
    ensures
        forall|j: int|
            0 <= j < deliveries(k, sources, n).len() ==> {
                let d = #[trigger] deliveries(k, sources, n)[j];
                &&& d.input < n
                &&& d.target == sim_target(k, d.input as nat)
                &&& delivers(k, sources[d.input as int], d.input as nat)
            },
        forall|j1: int, j2: int|
            0 <= j1 < j2 < deliveries(k, sources, n).len() ==> #[trigger] deliveries(
                k,
                sources,
                n,
            )[j1].input < #[trigger] deliveries(k, sources, n)[j2].input,
    decreases n,
{
    if n > 0 {
        let i = (n - 1) as nat;
        lemma_deliveries_ordered(k, sources, i);
        let before = deliveries(k, sources, i);
        let cur = deliveries(k, sources, n);
        if delivers(k, sources[i as int], i) {
            let d = Delivery { input: i as usize, target: sim_target(k, i) };
            assert(cur == before.push(d));
            assert forall|j: int| 0 <= j < before.len() implies cur[j] == before[j] by {}
            assert(cur[before.len() as int] == d);
        } else {
            assert(cur == before);
        }
    }
}

/// The simulation reads only input pins that the node has.
pub proof fn lemma_simulation_reads_existing_pins(k: NodeKind)
    ensures
        sim_input_count(k) <= node_inputs(k),
{
}

/// Every source whose value an input pin of a control node shows has a
/// numeric output to read.
pub proof fn lemma_accepted_sources_have_values(target: ControlKind, source: NodeKind)
    requires
        control_accepts(target, source),
    ensures
        provides_value(source),
{
}

/// The nodes with a value to read are exactly the PID controllers, the
/// number inputs and the lag elements.
pub proof fn lemma_value_sources(k: NodeKind)
    ensures
        provides_value(k) <==> (k == NodeKind::Control(ControlKind::Pid) || k == NodeKind::Control(
            ControlKind::NumInput,
        ) || k == NodeKind::Control(ControlKind::Pt1)),
{
}

/// The inputs that the simulation reads and where their values go: a PID
/// controller's pin 0 feeds its set point and pin 1 its actual value, a lag
/// element's single pin its input, and pin `i` of a plot with `m` channels
/// the history of channel `i`, for every `i < m`; other nodes read nothing.
pub proof fn lemma_simulation_targets(k: NodeKind, i: nat)
    ensures
        k == NodeKind::Control(ControlKind::Pid) ==> sim_input_count(k) == 2
            && (i == 0 ==> sim_target(k, i) == InputTarget::Pid(PidSlot::SetPoint))
            && (i == 1 ==> sim_target(k, i) == InputTarget::Pid(PidSlot::Actual)),
        k == NodeKind::Control(ControlKind::Pt1) ==> sim_input_count(k) == 1 && sim_target(k, i)
            == InputTarget::Pt1,
        forall|m: usize|
            k == NodeKind::Control(ControlKind::Plot(m)) ==> sim_input_count(k) == m && sim_target(
                k,
                i,
            ) == InputTarget::PlotChannel(i as usize),
        !(k is Control) || k == NodeKind::Control(ControlKind::NumInput) || k is Control && k->Control_0 is NumOutput
            ==> sim_input_count(k) == 0,
{
}

/// No delivery goes missing: every input among the first `n` whose first
/// wire comes from a PID controller, a number input or a lag element, and
/// whose value has a place to go, is delivered there.
pub proof fn lemma_deliveries_complete(k: NodeKind, sources: Seq<Option<NodeKind>>, n: nat)
    requires
        n <= sources.len(),
        n <= usize::MAX,
    ensures
        forall|i: nat|
            #![trigger sim_target(k, i)]
            i < n && (sources[i as int] == Some(NodeKind::Control(ControlKind::Pid)) || sources[i as int]
                == Some(NodeKind::Control(ControlKind::NumInput)) || sources[i as int] == Some(
                NodeKind::Control(ControlKind::Pt1),
            )) && !(sim_target(k, i) is Ignored) ==> deliveries(k, sources, n).contains(
                Delivery { input: i as usize, target: sim_target(k, i) },
            ),
    decreases n,
{
    if n > 0 {
        let j = (n - 1) as nat;
        lemma_deliveries_complete(k, sources, j);
        let before = deliveries(k, sources, j);
        let cur = deliveries(k, sources, n);
        assert forall|i: nat|
            #![trigger sim_target(k, i)]
            i < n && (sources[i as int] == Some(NodeKind::Control(ControlKind::Pid)) || sources[i as int]
                == Some(NodeKind::Control(ControlKind::NumInput)) || sources[i as int] == Some(
                NodeKind::Control(ControlKind::Pt1),
            )) && !(sim_target(k, i) is Ignored) implies cur.contains(
            Delivery { input: i as usize, target: sim_target(k, i) },
        ) by {
            let d = Delivery { input: i as usize, target: sim_target(k, i) };
            if i < j {
                assert(before.contains(d));
                let w = choose|w: int| 0 <= w < before.len() && before[w] == d;
                if delivers(k, sources[j as int], j) {
                    assert(cur == before.push(Delivery { input: j as usize, target: sim_target(k, j) }));
                    assert(cur[w] == d);
                } else {
                    assert(cur == before);
                }
            } else {
                assert(i == j);
                assert(delivers(k, sources[j as int], j));
                assert(cur == before.push(d));
                assert(cur[before.len() as int] == d);
            }
        }
    }
}

/// A plot with `m` channels records, in each step, every channel `i < m`
/// that is wired first from a PID controller, a number input or a lag
/// element, into the history of channel `i`.
pub proof fn lemma_plot_records_every_wired_channel(
    m: usize,
    sources: Seq<Option<NodeKind>>,
    i: nat,
)
    requires
        sources.len() <= usize::MAX,
        i < m,
        i < sources.len(),
        sources[i as int] == Some(NodeKind::Control(ControlKind::Pid)) || sources[i as int] == Some(
            NodeKind::Control(ControlKind::NumInput),
        ) || sources[i as int] == Some(NodeKind::Control(ControlKind::Pt1)),
    ensures
        ({
            let k = NodeKind::Control(ControlKind::Plot(m));
            let n = if sources.len() < sim_input_count(k) {
                sources.len()
            } else {
                sim_input_count(k)
            };
            deliveries(k, sources, n).contains(
                Delivery { input: i as usize, target: InputTarget::PlotChannel(i as usize) },
            )
        }),
{
    let k = NodeKind::Control(ControlKind::Plot(m));
    let n = if sources.len() < sim_input_count(k) {
        sources.len()
    } else {
        sim_input_count(k)
    };
    lemma_simulation_targets(k, i);
    lemma_deliveries_complete(k, sources, n);
    assert(!(sim_target(k, i) is Ignored));
}

/// The compute pass runs a PID controller exactly on the PID nodes and a
/// lag element exactly on the lag nodes; every node that runs reads inputs
/// and has a value for others to read.
pub proof fn lemma_step_actions(k: NodeKind)
    ensures
        step_action_spec(k) == StepAction::RunPid <==> k == NodeKind::Control(ControlKind::Pid),
        step_action_spec(k) == StepAction::RunPt1 <==> k == NodeKind::Control(ControlKind::Pt1),
        step_action_spec(k) != StepAction::Idle ==> sim_input_count(k) > 0 && provides_value(k),
{
}

} // verus!
