//! The parts of the browser that stand between the session and the outside:
//! the default security service and the content-security policy, the
//! rendering engine and its stand-in, what is noted of a network request,
//! and the stored form of the records.

pub mod database;
pub mod network;
pub mod rendering;
pub mod rendering_mock;
pub mod security;

pub use rendering::{DomNode, NodeKind, NodeRecord, RenderingConfig, ServoRenderer};
pub use rendering_mock::MockRenderer;
pub use security::{default_csp, CspBuilder, DefaultSecurityService};
