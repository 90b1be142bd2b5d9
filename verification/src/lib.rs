//! Planning and sequencing for building a Pop!_OS container image.
//!
//! The crate decides *what* has to happen and *in which order*; running the
//! container tools, the bootstrapper and the package manager is left to the
//! caller, who performs each [`action::Action`] and reports its
//! [`outcome::Outcome`] back to the [`pipeline::Pipeline`].

pub mod action;
pub mod error;
pub mod handoff;
pub mod identity;
pub mod keyring;
pub mod outcome;
pub mod packages;
pub mod pipeline;
pub mod profile;
pub mod repository;
pub mod request;
pub mod run;
pub mod stage;
mod text;
pub mod tool;
