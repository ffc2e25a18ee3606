//! Identity lifecycle of an authentication service: registration with a time-bounded
//! uniqueness policy, one-time-code verification, password checking, and signed session
//! tokens with a fixed lifetime. Times are seconds since the Unix epoch, passed in by the
//! caller.
#![allow(non_snake_case)]

pub mod text;
pub mod model;
pub mod store;
pub mod otp;
pub mod credentials;
pub mod token;
pub mod config;
pub mod usecases;
pub mod lifecycle;
pub mod profile;
