//! Bootstrap of a Vulkan execution context, as decisions on plain values:
//! which layers and extensions to enable, how a diagnostic message is routed,
//! which physical device is selected, and in which order the handles of the
//! application are released. The calls that reach the driver are made by the
//! caller, which reports what came back.

pub mod platform;
pub mod registry;
pub mod compose;
pub mod router;
pub mod device;
pub mod app;
