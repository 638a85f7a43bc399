//! Core logic of a terminal sign-in experience.
//!
//! The centrepiece is the sign-in state machine in [`auth`]: a pure driver
//! that reacts to key events and background-task reports by transitioning
//! between sign-in states and emitting the side effects the host must run
//! (start a flow, shut a listener down, write a credential). The host owns
//! the terminal, the network and the clock; everything it must decide is
//! decided here, under contracts.
//!
//! The other modules carry the catalog of slash commands, language
//! selection, tooltip selection and announcement filtering.

pub mod announcement;
pub mod auth;
pub mod i18n;
pub mod skills;
pub mod slash_command;
pub mod text;
pub mod tooltips;
