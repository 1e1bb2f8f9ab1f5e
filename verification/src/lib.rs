//! Windows input injection for rkvm: the decisions that turn forwarded Linux
//! input events into Windows `SendInput` records, the per-device filtering
//! done by the Windows service, and the small policies around them.

pub mod event;
pub mod mapping;
pub mod input;
pub mod normalizer;
pub mod settings;
pub mod writer;
pub mod devices;
pub mod client_writer;
pub mod injector;
pub mod service;
pub mod args;
