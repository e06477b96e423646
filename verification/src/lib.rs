//! Node-graph logic of a gas and control-loop simulator: which kinds of
//! nodes exist, how many pins they have, which wires may be drawn between
//! them, how values travel along wires during a simulation step, and the
//! bookkeeping of a plot node's input channels.
#![allow(non_camel_case_types)]

pub mod kinds;
pub mod wiring;
pub mod viewer;
pub mod routing;
pub mod pins;
pub mod plot;
pub mod pid;
