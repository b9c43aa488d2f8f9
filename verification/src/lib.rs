//! Policy core of a small administrative control panel: which privileged
//! commands a request may trigger, and how their outcome is reported.

pub mod action;
pub mod allow;
pub mod command;
pub mod console;
pub mod envelope;
pub mod error;
pub mod handlers;
pub mod json;
pub mod text;
