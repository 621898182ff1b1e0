//! Core of a terminal chat client: a locally cached view of the rooms a
//! logged-in user can see, the reconciliation rule that keeps that cache
//! from regressing on flaky fetches, and the event-driven state machines
//! behind every screen and popup of the interface.
//!
//! Network transport and terminal rendering are outside collaborators: the
//! functions here decide, from plain values, what the cache holds and what
//! each component does next, and hand any required remote action back to
//! the caller as data.

pub mod app;
pub mod cache;
pub mod candidates;
pub mod chat;
pub mod credentials;
pub mod current_room;
pub mod event;
pub mod input;
pub mod login;
pub mod message;
pub mod prompt;
pub mod room;
pub mod text;
pub mod widgets;
