use gassim::kinds::{ControlKind, GasKind, NodeKind};
use gassim::pid::{integral_update, IntegralUpdate, PID_input};
use gassim::routing::{
    input_target, output_value_of, pid_slot, process_control_node, simulation_input_count,
    update_node_inputs, Delivery, InputTarget, PidSlot, StepAction,
};

const PID: NodeKind = NodeKind::Control(ControlKind::Pid);
const NUM: NodeKind = NodeKind::Control(ControlKind::NumInput);
const PT1: NodeKind = NodeKind::Control(ControlKind::Pt1);
const OUT: NodeKind = NodeKind::Control(ControlKind::NumOutput(2));
const GAS: NodeKind = NodeKind::Gas(GasKind::Boundary(1));

#[test]
fn pid_pins() {
    assert_eq!(pid_slot(0), Some(PidSlot::SetPoint));
    assert_eq!(pid_slot(1), Some(PidSlot::Actual));
    assert_eq!(pid_slot(2), None);
}

#[test]
fn inputs_read_by_the_simulation() {
    assert_eq!(simulation_input_count(&PID), 2);
    assert_eq!(simulation_input_count(&PT1), 1);
    assert_eq!(simulation_input_count(&NodeKind::Control(ControlKind::Plot(3))), 3);
    assert_eq!(simulation_input_count(&OUT), 0);
    assert_eq!(simulation_input_count(&NUM), 0);
    assert_eq!(simulation_input_count(&GAS), 0);
}

#[test]
fn value_sources() {
    assert!(output_value_of(&PID));
    assert!(output_value_of(&NUM));
    assert!(output_value_of(&PT1));
    assert!(!output_value_of(&OUT));
    assert!(!output_value_of(&NodeKind::Control(ControlKind::Plot(1))));
    assert!(!output_value_of(&GAS));
}

#[test]
fn targets() {
    assert_eq!(input_target(&PID, 0), InputTarget::Pid(PidSlot::SetPoint));
    assert_eq!(input_target(&PID, 1), InputTarget::Pid(PidSlot::Actual));
    assert_eq!(input_target(&PID, 2), InputTarget::Ignored);
    assert_eq!(input_target(&PT1, 0), InputTarget::Pt1);
    assert_eq!(input_target(&NodeKind::Control(ControlKind::Plot(4)), 3), InputTarget::PlotChannel(3));
    assert_eq!(input_target(&OUT, 0), InputTarget::Ignored);
    assert_eq!(input_target(&GAS, 0), InputTarget::Ignored);
}

#[test]
fn pid_gathers_set_point_and_actual_value() {
    let d = update_node_inputs(&PID, &vec![Some(NUM), Some(PT1)]);
    assert_eq!(
        d,
        vec![
            Delivery { input: 0, target: InputTarget::Pid(PidSlot::SetPoint) },
            Delivery { input: 1, target: InputTarget::Pid(PidSlot::Actual) },
        ]
    );
}

#[test]
fn unwired_or_silent_sources_deliver_nothing() {
    let d = update_node_inputs(&PID, &vec![None, Some(OUT)]);
    assert!(d.is_empty());
    let d = update_node_inputs(&PID, &vec![Some(GAS), Some(PID)]);
    assert_eq!(d, vec![Delivery { input: 1, target: InputTarget::Pid(PidSlot::Actual) }]);
}

#[test]
fn only_the_inputs_the_simulation_reads() {
    let d = update_node_inputs(&PT1, &vec![Some(PID), Some(NUM)]);
    assert_eq!(d, vec![Delivery { input: 0, target: InputTarget::Pt1 }]);
    let d = update_node_inputs(&OUT, &vec![Some(PID), Some(NUM)]);
    assert!(d.is_empty());
    let plot = NodeKind::Control(ControlKind::Plot(3));
    let d = update_node_inputs(&plot, &vec![Some(PID), None]);
    assert_eq!(d, vec![Delivery { input: 0, target: InputTarget::PlotChannel(0) }]);
}

#[test]
fn compute_pass() {
    assert_eq!(process_control_node(&PID), StepAction::RunPid);
    assert_eq!(process_control_node(&PT1), StepAction::RunPt1);
    assert_eq!(process_control_node(&NUM), StepAction::Idle);
    assert_eq!(process_control_node(&OUT), StepAction::Idle);
    assert_eq!(process_control_node(&GAS), StepAction::Idle);
}

#[test]
fn pid_input_pins_store_values() {
    let mut i = PID_input { set: 0.0f64, act: 0.0f64, min: -10.0f64, max: 10.0f64 };
    i.set_input(PidSlot::SetPoint, 1.5);
    i.set_input(PidSlot::Actual, -0.5);
    assert_eq!(i.set, 1.5);
    assert_eq!(i.act, -0.5);
    assert_eq!(i.min, -10.0);
    assert_eq!(i.max, 10.0);
}

#[test]
fn anti_windup_rule() {
    assert_eq!(integral_update(false, false), IntegralUpdate::Accumulate);
    assert_eq!(integral_update(true, false), IntegralUpdate::BackCalculate);
    assert_eq!(integral_update(false, true), IntegralUpdate::Restore);
    assert_eq!(integral_update(true, true), IntegralUpdate::Restore);
}

#[test]
fn simulation_reads_only_existing_pins() {
    let mut v = gassim::viewer::Viewer;
    let kinds = [
        PID,
        NUM,
        PT1,
        OUT,
        GAS,
        NodeKind::Control(ControlKind::Plot(4)),
        NodeKind::Gas(GasKind::Boundary(3)),
    ];
    for k in kinds {
        assert!(simulation_input_count(&k) <= v.inputs(&k));
    }
}

#[test]
fn accepted_sources_have_values() {
    let kinds = [PID, NUM, PT1, OUT, GAS, NodeKind::Control(ControlKind::Plot(2))];
    let targets = [
        ControlKind::Pid,
        ControlKind::Pt1,
        ControlKind::NumOutput(1),
        ControlKind::Plot(2),
    ];
    for t in targets {
        for s in kinds {
            if t.show_input(Some(s)).shows_value {
                assert!(output_value_of(&s));
            }
        }
    }
}
