//! Game-controller input aggregation: device classification, hardware quirk
//! lookup and remapping, split-controller pairing, the virtual gamepad's
//! layout, the administration protocol, and the small request/response
//! services that run beside the pipeline.

pub mod event;
pub mod text;
pub mod quirks;
pub mod device;
pub mod pairing;
pub mod middleman;
pub mod remote;
pub mod usb;
pub mod sink;
pub mod admin;
pub mod service;
