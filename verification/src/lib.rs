//! A host-resident power-policy engine: named, sparse power profiles, the rules
//! that pick the active one, and the hardware writes each profile asks for.

pub mod apply;
pub mod cpu;
pub mod cpu_cores;
pub mod devices;
pub mod form;
pub mod kernel;
pub mod network;
pub mod outcome;
pub mod policy;
pub mod profile;
pub mod radio;
pub mod reconcile;
pub mod resolver;
pub mod screen;
pub mod selection;
pub mod text;
pub mod topology;
