//! Keeps web-servable traffic artifacts in step with a live database:
//! the resource catalog and its trigger rules, the debounce and
//! distribution state machines, and the encoders for fonts and graphics.

pub mod text;
pub mod listen;
pub mod resource;
pub mod catalog;
pub mod notify;
pub mod simple;
pub mod publish;
pub mod font;
pub mod graphic;
pub mod pending;
pub mod distrib;
pub mod segments;
pub mod html;
pub mod item;
pub mod card;
pub mod search;
pub mod json;
pub mod alarm;
pub mod dms;
pub mod videomonitor;
pub mod ui;
