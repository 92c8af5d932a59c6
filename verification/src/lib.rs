//! Core of a telephony audio server: the G.711 companding codecs, the DTMF
//! frequency plan, the comfort-noise generator's sequence, the sample-rate
//! converter's emission logic, the server configuration records with their
//! validation rules, the log-level parser and the health monitor's restart
//! decision.
//!
//! Signal synthesis and filtering operate on floating-point samples and live
//! with the I/O layers outside this crate; everything here is integer, string
//! and record logic with proved contracts.

pub mod codec;
pub mod tone;
pub mod resample;
pub mod text;
pub mod logger;
pub mod config;
pub mod health;
pub mod call;
