use vstd::prelude::*;
use crate::kinds::{NodeKind, GasKind, ControlKind};

verus! {

/// An output pin of the graph: a node index and the pin's index on it.
#[derive(Clone, Copy, Debug, PartialEq, Eq, Hash, Structural)]
pub struct OutputPin {
    pub node: usize,
    pub output: usize,
}

/// An input pin of the graph: a node index and the pin's index on it.
#[derive(Clone, Copy, Debug, PartialEq, Eq, Hash, Structural)]
pub struct InputPin {
    pub node: usize,
    pub input: usize,
}

/// A wire runs from an output pin to an input pin.
pub type Wire = (OutputPin, InputPin);

/// What to do with a request to draw a wire.
#[derive(Clone, Debug)]
pub enum ConnectPlan {
    /// The wire is not allowed: the graph stays as it is.
    Refuse,
    /// Remove the wires from each pin of `drop` into `to`, then add the wire
    /// from `from` to `to`.
    Rewire { drop: Vec<OutputPin>, from: OutputPin, to: InputPin },
}

/// The graph's wires after a plan has been carried out on `wires`.
pub open spec fn apply_plan(wires: Set<Wire>, plan: ConnectPlan) -> Set<Wire> {
    match plan {
        ConnectPlan::Refuse => wires,
        ConnectPlan::Rewire { drop, from, to } =>
            wires.filter(|w: Wire| !(w.1 == to && drop@.contains(w.0))).insert((from, to)),
    }
}

/// The output pins wired into `to`.
pub open spec fn remotes_of(wires: Set<Wire>, to: InputPin) -> Set<OutputPin> {
    Set::new(|o: OutputPin| wires.contains((o, to)))
}

/// The plan that a connection request yields, given whether it is allowed.
pub open spec fn rewire_plan_spec(
    allowed: bool,
    from: OutputPin,
    to: InputPin,
    remotes: Seq<OutputPin>,
    plan: ConnectPlan,
) -> bool {
    if allowed {
        plan matches ConnectPlan::Rewire { drop, from: f, to: t }
            && drop@ == remotes && f == from && t == to
    } else {
        plan is Refuse
    }
}

/// A wire may be drawn on the graph canvas only between two control nodes.
pub open spec fn canvas_allows(from: NodeKind, to: NodeKind) -> bool {
    from is Control && to is Control
}

/// A control node's own rule: both ends must be control nodes.
pub open spec fn control_rule_allows(from: NodeKind, to: NodeKind) -> bool {
    from is Control && to is Control
}

/// A gas node's own rule: both ends must be gas nodes.
pub open spec fn gas_rule_allows(from: NodeKind, to: NodeKind) -> bool {
    from is Gas && to is Gas
}

fn is_control(k: &NodeKind) -> (res: bool)
    ensures
        res == (*k is Control),
{
    match k {
        NodeKind::Control(_) => true,
        NodeKind::Gas(_) => false,
    }
}

fn is_gas(k: &NodeKind) -> (res: bool)
    ensures
        res == (*k is Gas),
{
    match k {
        NodeKind::Gas(_) => true,
        NodeKind::Control(_) => false,
    }
}

/// Builds the plan that enforces one wire per input: every wire listed in
/// `remotes` into `to` goes, then the new wire is added.
pub fn rewire_plan(allowed: bool, from: OutputPin, to: InputPin, remotes: &Vec<OutputPin>) -> (plan:
    ConnectPlan)
    ensures
        rewire_plan_spec(allowed, from, to, remotes@, plan),
{
    if !allowed {
        return ConnectPlan::Refuse;
    }
    let mut drop: Vec<OutputPin> = Vec::new();
    let mut i: usize = 0;
    while i < remotes.len()
        invariant
            i <= remotes.len(),
            drop@ == remotes@.subrange(0, i as int),
        decreases remotes.len() - i,
    {
        drop.push(remotes[i]);
        i = i + 1;
    }
    assert(remotes@.subrange(0, remotes.len() as int) == remotes@);
    ConnectPlan::Rewire { drop, from, to }
}

impl ControlKind {
    /// A control node's connection rule: a wire is drawn only between two
    /// control nodes, and it replaces every wire already into `to`.
    pub fn connect(
        &self,
        from_kind: &NodeKind,
        to_kind: &NodeKind,
        from: OutputPin,
        to: InputPin,
        remotes: &Vec<OutputPin>,
    ) -> (plan: ConnectPlan)
        ensures
            rewire_plan_spec(control_rule_allows(*from_kind, *to_kind), from, to, remotes@, plan),
    {
        let from_ok = is_control(from_kind);
        let to_ok = is_control(to_kind);
        rewire_plan(from_ok && to_ok, from, to, remotes)
    }
}

impl GasKind {
    /// A gas node's connection rule: a wire is drawn only between two gas
    /// nodes, and it replaces every wire already into `to`.
    pub fn connect(
        &self,
        from_kind: &NodeKind,
        to_kind: &NodeKind,
        from: OutputPin,
        to: InputPin,
        remotes: &Vec<OutputPin>,
    ) -> (plan: ConnectPlan)
        ensures
            rewire_plan_spec(gas_rule_allows(*from_kind, *to_kind), from, to, remotes@, plan),
    {
        let from_ok = is_gas(from_kind);
        let to_ok = is_gas(to_kind);
        rewire_plan(from_ok && to_ok, from, to, remotes)
    }
}

/// Carrying out a plan built from the current wires into `to` leaves exactly
/// one wire into `to`, the new one, and every wire into another input as it
/// was.
pub proof fn lemma_rewire_leaves_one_wire(
    wires: Set<Wire>,
    from: OutputPin,
    to: InputPin,
    remotes: Seq<OutputPin>,
    plan: ConnectPlan,
)
    requires
        rewire_plan_spec(true, from, to, remotes, plan),
        remotes.to_set() == remotes_of(wires, to),
    ensures
        remotes_of(apply_plan(wires, plan), to) == set![from],
        forall|w: Wire| w.1 != to ==> (apply_plan(wires, plan).contains(w) <==> wires.contains(w)),
{
    let after = apply_plan(wires, plan);
    assert forall|o: OutputPin| #[trigger] after.contains((o, to)) implies o == from by {
        if o != from {
            assert(wires.contains((o, to)));
            assert(remotes_of(wires, to).contains(o));
            assert(remotes.to_set().contains(o));
            assert(remotes.contains(o));
        }
    }
    assert(remotes_of(after, to) =~= set![from]);
}

/// On the canvas a wire is allowed exactly where a control node's own rule
/// allows it, and a wire allowed there is never allowed by a gas node's rule.
pub proof fn lemma_canvas_rule_is_control_rule(from: NodeKind, to: NodeKind)
    ensures
        canvas_allows(from, to) == control_rule_allows(from, to),
        canvas_allows(from, to) ==> !gas_rule_allows(from, to),
{
}

/// A refused request leaves the wires as they were.
pub proof fn lemma_refused_leaves_wires(wires: Set<Wire>, plan: ConnectPlan)
    requires
        plan is Refuse,
    ensures
        apply_plan(wires, plan) == wires,
{
}

/// Between any two control nodes, whatever their kinds, a wire is drawn:
/// the plan replaces the wires listed in `remotes` by the new one.
pub proof fn lemma_control_wires_are_drawn(
    a: ControlKind,
    b: ControlKind,
    from: OutputPin,
    to: InputPin,
    remotes: Seq<OutputPin>,
    plan: ConnectPlan,
)
    requires
        rewire_plan_spec(
            canvas_allows(NodeKind::Control(a), NodeKind::Control(b)),
            from,
            to,
            remotes,
            plan,
        ),
    ensures
        plan matches ConnectPlan::Rewire { drop, from: f, to: t } && drop@ == remotes && f == from
            && t == to,
{
}

/// A wire with a gas node at either end is refused, on the canvas and by a
/// control node's rule.
pub proof fn lemma_gas_wires_are_refused(
    g: GasKind,
    other: NodeKind,
    from: OutputPin,
    to: InputPin,
    remotes: Seq<OutputPin>,
)
    ensures
        !canvas_allows(NodeKind::Gas(g), other),
        !canvas_allows(other, NodeKind::Gas(g)),
        !control_rule_allows(NodeKind::Gas(g), other),
        !control_rule_allows(other, NodeKind::Gas(g)),
        forall|plan: ConnectPlan|
            rewire_plan_spec(canvas_allows(NodeKind::Gas(g), other), from, to, remotes, plan)
                ==> plan is Refuse,
        forall|plan: ConnectPlan|
            rewire_plan_spec(canvas_allows(other, NodeKind::Gas(g)), from, to, remotes, plan)
                ==> plan is Refuse,
{
}

/// A gas node's rule draws a wire between any two gas nodes.
pub proof fn lemma_gas_rule_joins_gas_nodes(g: GasKind, h: GasKind)
    ensures
        gas_rule_allows(NodeKind::Gas(g), NodeKind::Gas(h)),
        forall|c: ControlKind|
            !gas_rule_allows(NodeKind::Gas(g), NodeKind::Control(c)) && !gas_rule_allows(
                NodeKind::Control(c),
                NodeKind::Gas(g),
            ),
{
}

} // verus!
