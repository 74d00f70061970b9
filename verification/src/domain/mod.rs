//! The browser's own vocabulary: identifiers, validated URLs, tabs and the
//! other records, the failures an operation can end in, and the interface of
//! the security service.

pub mod entities;
pub mod errors;
pub mod services;
pub mod value_objects;

pub use entities::{Bookmark, HistoryEntry, Permission, SecurityContext, Tab};
pub use errors::BrowserError;
pub use services::SecurityService;
pub use value_objects::{Certificate, Scheme, TabId, Timestamp, UrlParts, ValidatedUrl};
