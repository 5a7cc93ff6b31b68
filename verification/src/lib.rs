//! The backend supervisor of a desktop shell.
//!
//! The shell shows a transitional window, makes sure that its separately
//! packaged backend server runs, waits until the server answers, and then
//! reveals the main window, whatever came of the wait. This crate holds the
//! decisions of that sequence as state machines: the caller probes, spawns,
//! rests and reveals as it is asked to, and reports back what happened.
//!
//! - [`probe`]: the liveness verdict of one connection attempt.
//! - [`launcher`]: spawn the backend unless one already answers.
//! - [`waiter`]: a bounded polling loop under a [`budget`].
//! - [`orchestrator`]: the whole sequence, from idle to the reveal.
//! - [`runs`]: what holds of every run of the orchestrator.
//! - [`rehearsal`]: a whole sequence against a scripted backend.
//! - [`endpoint`], [`digits`]: the backend's address and its text.
//! - [`naming`], [`dialog`]: folder names and file dialogs of the shell.

pub mod budget;
pub mod dialog;
pub mod digits;
pub mod endpoint;
pub mod launcher;
pub mod naming;
pub mod orchestrator;
pub mod outcome;
pub mod probe;
pub mod rehearsal;
pub mod runs;
pub mod waiter;
