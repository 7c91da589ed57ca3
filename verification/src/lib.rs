//! Supervision of a Python sidecar behind a desktop application: where it lives
//! and how it is started, how requests reach it, how it and other processes are
//! watched and restarted, and what is cleared away after a crash and at exit.
//!
//! The library decides; whoever uses it acts. What touches the disk, the network
//! or another process is an action that a state machine hands out, and what came
//! of it is the reply that the machine takes next. So the decisions are functions
//! of plain values, and what they decide is stated and proved.
//!
//! * [`paths`]: directories, files and the commands that start the sidecar.
//! * [`sidecar_client`] and [`exchange`]: the line protocol, and one exchange with
//!   the server.
//! * [`commands`] and [`oneshot`]: requests of the user interface, and the process
//!   that stands in while the server is not listening.
//! * [`supervisor`], [`health`], [`state`], [`restart`] and [`monitor`]: supervised
//!   processes, how they are launched, probed, recorded, restarted and given up.
//! * [`process`], [`locks`], [`recovery`], [`sweep`] and [`shutdown`]: what a crash
//!   leaves behind, and how everything ends.
//! * [`text`], [`numbers`], [`json`], [`command`] and [`events`]: what the others are
//!   made of.

pub mod command;
pub mod commands;
pub mod events;
pub mod exchange;
pub mod health;
pub mod json;
pub mod locks;
pub mod monitor;
pub mod numbers;
pub mod oneshot;
pub mod paths;
pub mod process;
pub mod recovery;
pub mod restart;
pub mod shutdown;
pub mod sidecar_client;
pub mod state;
pub mod supervisor;
pub mod sweep;
pub mod text;
