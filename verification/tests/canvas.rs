use gassim::kinds::{ControlKind, GasKind, NodeKind};
use gassim::pins::{PinFill, PinShape, PinView};
use gassim::plot::{PlotInputs, MAX_PLOT_INPUTS};

const WHITE_VALUE: PinView = PinView { shape: PinShape::Circle, fill: PinFill::White, shows_value: true };
const WHITE: PinView = PinView { shape: PinShape::Circle, fill: PinFill::White, shows_value: false };
const RED: PinView = PinView { shape: PinShape::Circle, fill: PinFill::Red, shows_value: false };

#[test]
fn control_inputs_look() {
    let pid = NodeKind::Control(ControlKind::Pid);
    let pt1 = NodeKind::Control(ControlKind::Pt1);
    let gas = NodeKind::Gas(GasKind::Boundary(1));
    assert_eq!(ControlKind::Pid.show_input(Some(pt1)), WHITE_VALUE);
    assert_eq!(ControlKind::Pid.show_input(None), RED);
    assert_eq!(ControlKind::Pid.show_input(Some(gas)), RED);
    assert_eq!(ControlKind::Pt1.show_input(Some(pt1)), RED);
    assert_eq!(ControlKind::Pt1.show_input(Some(pid)), WHITE_VALUE);
    assert_eq!(ControlKind::Plot(2).show_input(Some(pt1)), WHITE_VALUE);
    assert_eq!(ControlKind::NumOutput(1).show_input(Some(pid)), WHITE_VALUE);
    assert_eq!(ControlKind::NumInput.show_input(None), WHITE);
}

#[test]
fn control_outputs_look() {
    assert_eq!(ControlKind::Pid.show_output(), WHITE);
    assert_eq!(ControlKind::NumInput.show_output(), WHITE);
    assert_eq!(ControlKind::NumOutput(1).show_output(), WHITE);
    assert_eq!(ControlKind::Pt1.show_output(), WHITE_VALUE);
    assert_eq!(ControlKind::Plot(1).show_output(), RED);
}

#[test]
fn gas_pins_look() {
    let blue_value = PinView { shape: PinShape::Square, fill: PinFill::Blue, shows_value: true };
    let b = GasKind::Boundary(1);
    assert_eq!(b.show_input(Some(NodeKind::Gas(GasKind::Boundary(2)))), blue_value);
    assert_eq!(b.show_input(Some(NodeKind::Control(ControlKind::Pid))), RED);
    assert_eq!(b.show_input(None), RED);
    assert_eq!(
        b.show_output(),
        PinView { shape: PinShape::Square, fill: PinFill::Blue, shows_value: false }
    );
}

#[test]
fn plot_buttons_respect_bounds() {
    let mut p = PlotInputs::new(0u32);
    assert_eq!(p.num_inputs(), 1);
    assert_eq!(p.remove_input(), None);
    assert_eq!(p.num_inputs(), 1);
    for k in 1..20u32 {
        let added = p.add_input(k);
        assert_eq!(added, (k as usize) < MAX_PLOT_INPUTS);
    }
    assert_eq!(p.num_inputs(), MAX_PLOT_INPUTS);
    assert_eq!(p.channel(7), Some(&7));
    assert_eq!(p.channel(8), None);
    assert_eq!(p.remove_input(), Some(7));
    assert_eq!(p.num_inputs(), 7);
}

#[test]
fn plot_add_then_remove_restores() {
    let mut p = PlotInputs::new(10u32);
    p.add_input(11);
    assert!(p.add_input(12));
    assert_eq!(p.remove_input(), Some(12));
    assert_eq!(p.num_inputs(), 2);
    assert_eq!(p.channel(0), Some(&10));
    assert_eq!(p.channel(1), Some(&11));
    assert_eq!(p.channel(2), None);
}

#[test]
fn plot_channel_updates_in_place() {
    let mut p = PlotInputs::new(vec![1u32]);
    p.add_input(Vec::new());
    if let Some(h) = p.channel_mut(1) {
        h.push(5);
    }
    assert!(p.channel_mut(2).is_none());
    assert_eq!(p.channel(1), Some(&vec![5]));
    assert_eq!(p.channel(0), Some(&vec![1]));
}
