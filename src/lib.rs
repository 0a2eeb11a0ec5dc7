//! Dual-target command and event generation: from one declaration of a command or
//! of a data aggregate, this library derives the host-side handler entry and the
//! remote-side stub, keeps the registry of handlers per namespace, and runs the
//! per-field publish/subscribe protocol that keeps a remote replica in sync.

pub mod text;
pub mod naming;

pub mod invoke;
pub mod command;
pub mod outcome;
pub mod registry;

pub mod event;
pub mod protocol;
pub mod bootstrap;

pub mod cmd;
pub mod model;
