//! Page acquisition for a web crawler: the decisions of a fetch, stated and proved.
//!
//! Every module holds plain values and the rules that turn them into the next
//! step of a fetch; the program around this library performs the steps.

pub mod accumulator;
pub mod ai;
pub mod cache;
pub mod challenge;
pub mod configuration;
pub mod control;
pub mod fetch;
pub mod html;
pub mod page;
pub mod screenshot;
pub mod strings;
pub mod text;
pub mod wait;
