//! A configuration-driven HTTP mock engine: routes, conditions and matchers
//! decide which canned response applies to a normalized incoming request.
//!
//! This crate holds the request-matching and response-selection logic.
//! Listening, wire parsing and file reading are left to the surrounding
//! program, which hands the engine plain values and performs the actions
//! (a sleep, a file read) that the engine decides on.

pub mod body;
pub mod condition;
pub mod config;
pub mod init;
pub mod matcher;
pub mod matchers;
pub mod method;
pub mod options;
pub mod request;
pub mod response;
pub mod route;
pub mod text;
pub mod value;
