//! Picks one plain post from a list feed and renders it as a message of the day.

pub mod document;
pub mod feed;
pub mod motd;
pub mod selection;
pub mod session;
