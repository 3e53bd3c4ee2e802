//! Core of a tabletop-RPG event-scheduling backend: stateless session
//! tokens (encrypted JWT), password credentials, authentication
//! middleware decisions, and an in-process notification bus with
//! heartbeat and shutdown coordination.
//!
//! Everything here is plain computation over plain values; the
//! surrounding HTTP server, database repository and mail delivery are
//! external collaborators that feed values in and carry results out.

pub mod bus;
pub mod claims;
pub mod codec;
pub mod company;
pub mod cookie;
pub mod digits;
pub mod dto;
pub mod errors;
pub mod flows;
pub mod guard;
pub mod hasher;
pub mod image;
pub mod locations;
pub mod middleware;
pub mod shared;
pub mod sse;
pub mod telegram;
