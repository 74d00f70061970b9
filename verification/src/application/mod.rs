//! The session: the registry of open tabs, and the use cases that open and
//! close tabs and navigate them.

pub mod state;
pub mod use_cases;

pub use state::BrowserState;
pub use use_cases::{
    CloseTabUseCase, NavigateUseCase, OpenTabUseCase, PendingHistory, PendingTitle,
};
