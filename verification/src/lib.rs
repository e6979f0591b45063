//! A small terminal-application skeleton: independently updatable panels
//! ("components") share one ordered action stream and are driven through a
//! uniform update-then-draw cycle each frame.
//!
//! The library holds the dispatch architecture itself: the action and mode
//! types, the panel implementations, the layout policy that assigns each
//! active panel a disjoint sub-rectangle, and the dispatcher that drains the
//! action queue in FIFO order. Terminal I/O, the async event loop and widget
//! rendering live outside the library and only hand plain values in and out.

pub mod action;
pub mod channel;
pub mod components;
pub mod config;
pub mod dispatch;
pub mod layout;
pub mod mode;
pub mod theme;
