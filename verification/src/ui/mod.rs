//! What the window shows that is not the page: the address bar.

pub mod address_bar;

pub use address_bar::{AddressBar, AddressBarAction, KeyInput};
