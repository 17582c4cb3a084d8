//! Controller core of a single-window weather application.
//!
//! The controller owns the application state, takes it from message to
//! message, and says which effects its host has to run and what the window
//! shows. It does no input or output of its own: the host runs the effects
//! and hands their outcomes back as messages.
//!
//! - [`controller`]: the state, its startup and its transition function.
//! - [`message`]: messages, effects, events, and the message that follows
//!   the outcome of an effect.
//! - [`present`]: what the window shows, as a function of the state.
//! - [`laws`]: properties of the transition function, proved over its model.
//! - [`config`], [`location`], [`nav`], [`context`], [`dialog`],
//!   [`key_bind`], [`text`]: the data that the state is made of.

pub mod config;
pub mod context;
pub mod controller;
pub mod dialog;
pub mod key_bind;
pub mod laws;
pub mod location;
pub mod message;
pub mod nav;
pub mod present;
pub mod text;
