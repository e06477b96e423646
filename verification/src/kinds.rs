use vstd::prelude::*;

verus! {

/// The kind of a control node, with the plain values that decide its pins.
#[derive(Clone, Copy, Debug, PartialEq, Eq, Structural)]
pub enum ControlKind {
    /// A PID controller (set point and actual value in, control value out).
    Pid,
    /// A constant number source.
    NumInput,
    /// A display sink with the given number of inputs.
    NumOutput(usize),
    /// A first-order lag element.
    Pt1,
    /// A plot with the given number of input channels.
    Plot(usize),
}

/// The kind of a gas node.
#[derive(Clone, Copy, Debug, PartialEq, Eq, Structural)]
pub enum GasKind {
    /// A boundary condition with the given number of inputs.
    Boundary(usize),
}

/// The kind of any node of the graph.
#[derive(Clone, Copy, Debug, PartialEq, Eq, Structural)]
pub enum NodeKind {
    Gas(GasKind),
    Control(ControlKind),
}

/// Title shown in a control node's header.
pub open spec fn control_title(k: ControlKind) -> Seq<char> {
    match k {
        ControlKind::Pid => "PID"@,
        ControlKind::NumInput => "Number Input"@,
        ControlKind::NumOutput(_) => "Number Output"@,
        ControlKind::Pt1 => "PT1"@,
        ControlKind::Plot(_) => "Plot"@,
    }
}

/// Number of input pins of a control node.
pub open spec fn control_inputs(k: ControlKind) -> nat {
    match k {
        ControlKind::Pid => 2,
        ControlKind::NumInput => 0,
        ControlKind::NumOutput(n) => n as nat,
        ControlKind::Pt1 => 1,
        ControlKind::Plot(n) => n as nat,
    }
}

/// Number of output pins of a control node.
pub open spec fn control_outputs(k: ControlKind) -> nat {
    match k {
        ControlKind::Pid => 1,
        ControlKind::NumInput => 1,
        ControlKind::NumOutput(_) => 0,
        ControlKind::Pt1 => 1,
        ControlKind::Plot(_) => 0,
    }
}

/// Title shown in a gas node's header.
pub open spec fn gas_title(k: GasKind) -> Seq<char> {
    match k {
        GasKind::Boundary(_) => "Boundary"@,
    }
}

/// Number of input pins of a gas node.
pub open spec fn gas_inputs(k: GasKind) -> nat {
    match k {
        GasKind::Boundary(n) => n as nat,
    }
}

/// Number of output pins of a gas node.
pub open spec fn gas_outputs(k: GasKind) -> nat {
    match k {
        GasKind::Boundary(_) => 1,
    }
}

impl ControlKind {
    pub fn title(&self) -> (res: String)
        ensures
            res@ == control_title(*self),
    {
        match self {
            ControlKind::Pid => "PID".to_owned(),
            ControlKind::NumInput => "Number Input".to_owned(),
            ControlKind::NumOutput(_) => "Number Output".to_owned(),
            ControlKind::Pt1 => "PT1".to_owned(),
            ControlKind::Plot(_) => "Plot".to_owned(),
        }
    }

    pub fn inputs(&self) -> (res: usize)
        ensures
            res == control_inputs(*self),
    {
        match self {
            ControlKind::Pid => 2,
            ControlKind::NumInput => 0,
            ControlKind::NumOutput(n) => *n,
            ControlKind::Pt1 => 1,
            ControlKind::Plot(n) => *n,
        }
    }

    pub fn outputs(&self) -> (res: usize)
        ensures
            res == control_outputs(*self),
    {
        match self {
            ControlKind::Pid => 1,
            ControlKind::NumInput => 1,
            ControlKind::NumOutput(_) => 0,
            ControlKind::Pt1 => 1,
            ControlKind::Plot(_) => 0,
        }
    }
}

impl GasKind {
    pub fn title(&self) -> (res: String)
        ensures
            res@ == gas_title(*self),
    {
        match self {
            GasKind::Boundary(_) => "Boundary".to_owned(),
        }
    }

    pub fn inputs(&self) -> (res: usize)
        ensures
            res == gas_inputs(*self),
    {
        match self {
            GasKind::Boundary(n) => *n,
        }
    }

    pub fn outputs(&self) -> (res: usize)
        ensures
            res == gas_outputs(*self),
    {
        match self {
            GasKind::Boundary(_) => 1,
        }
    }
}

} // verus!
