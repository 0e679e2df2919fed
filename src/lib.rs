//! Control-plane model for the v4l2loopback driver: the descriptor that the
//! driver's control requests exchange, and the decisions taken before and
//! after each request.
pub mod control;
pub mod descriptor;

pub use control::{LoopbackError, Request};
pub use descriptor::V4l2LoopbackCtl;
