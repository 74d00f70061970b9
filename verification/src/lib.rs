//! Core of a small browser shell: the registry of open tabs, the security
//! service that every navigation passes, and the decisions of the use cases
//! that open, close and navigate tabs.
//!
//! Nothing here reads a file, a socket or a window. Where a use case needs a
//! page rendered or a record stored, it says so, and takes the outcome as an
//! argument when it goes on; see [`application::use_cases`]. The modules
//! follow the layers of the browser:
//!
//! - [`domain`]: identifiers, instants, validated URLs, tabs and the other
//!   records, and the failures of an operation;
//! - [`application`]: the registry and the use cases;
//! - [`infrastructure`]: the default security service, content-security
//!   policies, what the rendering engine reads from a document, and the
//!   stored form of the records;
//! - [`ui`]: the address bar;
//! - [`text`]: the sequences of characters that all contracts speak of.

pub mod application;
pub mod domain;
pub mod infrastructure;
pub mod text;
pub mod ui;
