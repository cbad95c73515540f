//! Installs and removes a Windows service, optionally one that runs as a
//! protected anti-malware light process backed by an ELAM certificate.
//!
//! The library holds the decisions: reading the command line
//! ([`cli`]), the four procedures as a state machine that says which
//! Windows call to make next ([`procedure`], with what holds of every run
//! in [`procedure_laws`]), reading the raw results of the Windows calls
//! ([`winapi`], [`handle`]), the texts of errors ([`error`], [`text`]) and
//! the ELAM driver image ([`elam`]). The calls themselves are made by the
//! program that drives the procedures.

pub mod cli;
pub mod elam;
pub mod error;
pub mod handle;
pub mod procedure;
pub mod procedure_laws;
pub mod procedure_steps;
pub mod text;
pub mod winapi;
