// A binding over a handle-based XR runtime: the two-call capacity protocol,
// fixed-capacity text fields, and the instance, session and frame-cycle
// objects that own native handles.

pub mod entry;
pub mod instance;
pub mod query;
pub mod session;
pub mod status;
pub mod text;
