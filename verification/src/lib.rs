//! A process-bound event dispatch engine.
//!
//! The engine stands between a long-running child process and the
//! extension scripts that react to what the process prints. It decides
//! which triggers fire for a line of output and with which arguments,
//! gathers and normalizes the commands the callbacks hand back, queues
//! them in a bounded first-in first-out channel on their way to the
//! process's input, and picks the lifecycle hooks to run when the process
//! ends.
//!
//! The crate holds decisions, not input and output. A driver reads the
//! lines, performs the writes and waits where waiting is called for; the
//! functions here tell it what to do next.
//!
//! * [`registry`]: the triggers and hooks, in registration order.
//! * [`dispatch`]: the pass over the registry for one line of output.
//! * [`command`]: the normal form of a command.
//! * [`channel`]: the command channel and its ordering laws.
//! * [`writer`], [`forwarder`]: the channel's consumer and the operator's
//!   console as a producer.
//! * [`supervisor`]: exit classification and lifecycle hooks.
//! * [`api`], [`identity`], [`loader`], [`config`]: what extensions see,
//!   how they are named, and how their settings are resolved.
//! * [`pattern`], [`runtime`]: the regular expression matcher and the
//!   script runtime, both used as they are and believed, not proved.

pub mod api;
pub mod channel;
pub mod command;
pub mod config;
pub mod dispatch;
pub mod forwarder;
pub mod identity;
pub mod loader;
pub mod pattern;
pub mod registry;
pub mod runtime;
pub mod supervisor;
pub mod writer;
