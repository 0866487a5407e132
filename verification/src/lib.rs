//! Drive pipeline of a two-motor robot steered by a motor-imagery classifier,
//! with the rules of the tools that record the training data for it.
//!
//! The library holds the decisions of the pipeline: which drive command a pair
//! of classifier probabilities selects (`arbiter`), which levels the six
//! output lines take for a command and in which order they are written
//! (`drive`, `motors`), which messages of an inbound datagram carry a command
//! (`osc`, `wire`), and when silence on the command channel forces a stop
//! (`listener`). Performing the writes, receiving datagrams and reading the
//! clock are left to the caller.
//!
//! `shield` holds the values exchanged with the acquisition shield, and
//! `collector` the rules by which a trial is recorded.

pub mod arbiter;
pub mod collector;
pub mod drive;
pub mod listener;
pub mod motors;
pub mod osc;
pub mod shield;
pub mod wire;
