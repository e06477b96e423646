use vstd::prelude::*;
use crate::kinds::{NodeKind, ControlKind, GasKind};

verus! {

/// Shape of a pin on the canvas.
#[derive(Clone, Copy, Debug, PartialEq, Eq, Structural)]
pub enum PinShape {
    Circle,
    Square,
}

/// Fill colour of a pin on the canvas.
#[derive(Clone, Copy, Debug, PartialEq, Eq, Structural)]
pub enum PinFill {
    White,
    Red,
    Blue,
}

/// How a pin looks, and whether the value read through it is shown (and, for
/// an input, stored in the node).
#[derive(Clone, Copy, Debug, PartialEq, Eq, Structural)]
pub struct PinView {
    pub shape: PinShape,
    pub fill: PinFill,
    pub shows_value: bool,
}

/// Whether an input of a control node of kind `target` reads the value of a
/// node of kind `source`: a lag element reads a PID controller or a number
/// input; the others read a PID controller, a number input or a lag element.
pub open spec fn control_accepts(target: ControlKind, source: NodeKind) -> bool {
    match source {
        NodeKind::Control(ControlKind::Pid) => true,
        NodeKind::Control(ControlKind::NumInput) => true,
        NodeKind::Control(ControlKind::Pt1) => !(target is Pt1),
        _ => false,
    }
}

/// How an input pin of a control node of kind `target` looks, where `remote`
/// is the kind of the node last wired into it, if any.
pub open spec fn control_input_view(target: ControlKind, remote: Option<NodeKind>) -> PinView {
    if target is NumInput {
        PinView { shape: PinShape::Circle, fill: PinFill::White, shows_value: false }
    } else if remote matches Some(s) && control_accepts(target, s) {
        PinView { shape: PinShape::Circle, fill: PinFill::White, shows_value: true }
    } else {
        PinView { shape: PinShape::Circle, fill: PinFill::Red, shows_value: false }
    }
}

/// How an output pin of a control node looks; a lag element prints its
/// output beside the pin.
pub open spec fn control_output_view(k: ControlKind) -> PinView {
    match k {
        ControlKind::Plot(_) => PinView { shape: PinShape::Circle, fill: PinFill::Red, shows_value: false },
        ControlKind::Pt1 => PinView { shape: PinShape::Circle, fill: PinFill::White, shows_value: true },
        _ => PinView { shape: PinShape::Circle, fill: PinFill::White, shows_value: false },
    }
}

/// How an input pin of a gas node looks, where `remote` is the kind of the
/// node last wired into it, if any: it reads a gas state from a boundary.
pub open spec fn gas_input_view(remote: Option<NodeKind>) -> PinView {
    if remote matches Some(NodeKind::Gas(GasKind::Boundary(_))) {
        PinView { shape: PinShape::Square, fill: PinFill::Blue, shows_value: true }
    } else {
        PinView { shape: PinShape::Circle, fill: PinFill::Red, shows_value: false }
    }
}

/// How an output pin of a gas node looks.
pub open spec fn gas_output_view(k: GasKind) -> PinView {
    PinView { shape: PinShape::Square, fill: PinFill::Blue, shows_value: false }
}

fn accepts(target: &ControlKind, source: &NodeKind) -> (res: bool)
    ensures
        res == control_accepts(*target, *source),
{
    match source {
        NodeKind::Control(ControlKind::Pid) => true,
        NodeKind::Control(ControlKind::NumInput) => true,
        NodeKind::Control(ControlKind::Pt1) => !matches!(target, ControlKind::Pt1),
        _ => false,
    }
}

impl ControlKind {
    pub fn show_input(&self, remote: Option<NodeKind>) -> (res: PinView)
        ensures
            res == control_input_view(*self, remote),
    {
        let white = PinView { shape: PinShape::Circle, fill: PinFill::White, shows_value: true };
        let red = PinView { shape: PinShape::Circle, fill: PinFill::Red, shows_value: false };
        match self {
            ControlKind::NumInput => PinView {
                shape: PinShape::Circle,
                fill: PinFill::White,
                shows_value: false,
            },
            _ => match remote {
                Some(s) => if accepts(self, &s) {
                    white
                } else {
                    red
                },
                None => red,
            },
        }
    }

    pub fn show_output(&self) -> (res: PinView)
        ensures
            res == control_output_view(*self),
    {
        match self {
            ControlKind::Plot(_) => PinView {
                shape: PinShape::Circle,
                fill: PinFill::Red,
                shows_value: false,
            },
            ControlKind::Pt1 => PinView {
                shape: PinShape::Circle,
                fill: PinFill::White,
                shows_value: true,
            },
            _ => PinView { shape: PinShape::Circle, fill: PinFill::White, shows_value: false },
        }
    }
}

impl GasKind {
    pub fn show_input(&self, remote: Option<NodeKind>) -> (res: PinView)
        ensures
            res == gas_input_view(remote),
    {
        match remote {
            Some(NodeKind::Gas(GasKind::Boundary(_))) => PinView {
                shape: PinShape::Square,
                fill: PinFill::Blue,
                shows_value: true,
            },
            _ => PinView { shape: PinShape::Circle, fill: PinFill::Red, shows_value: false },
        }
    }

    pub fn show_output(&self) -> (res: PinView)
        ensures
            res == gas_output_view(*self),
    {
        PinView { shape: PinShape::Square, fill: PinFill::Blue, shows_value: false }
    }
}

/// An input pin of a control node other than a number input shows (and
/// stores) the wired-in value exactly when it comes from a PID controller or
/// a number input, or from a lag element into anything but a lag element;
/// then the pin is a white circle, otherwise a red one.
pub proof fn lemma_control_input_shows_value_sources(target: ControlKind, source: NodeKind)
    requires
        !(target is NumInput),
    ensures
        control_input_view(target, Some(source)).shows_value <==> (source == NodeKind::Control(
            ControlKind::Pid,
        ) || source == NodeKind::Control(ControlKind::NumInput) || (source == NodeKind::Control(
            ControlKind::Pt1,
        ) && target != ControlKind::Pt1)),
        control_input_view(target, Some(source)).shows_value ==> control_input_view(
            target,
            Some(source),
        ) == (PinView { shape: PinShape::Circle, fill: PinFill::White, shows_value: true }),
        !control_input_view(target, Some(source)).shows_value ==> control_input_view(
            target,
            Some(source),
        ) == (PinView { shape: PinShape::Circle, fill: PinFill::Red, shows_value: false }),
        control_input_view(target, None) == (PinView {
            shape: PinShape::Circle,
            fill: PinFill::Red,
            shows_value: false,
        }),
{
}

} // verus!
