//! A terminal calendar's logic, verified: dates and the month grid, the
//! event form and its parsing, the local event store, the Google sign-in
//! redirect, and what each key and each finished request does to the state.
pub mod date;
pub mod text;
pub mod parse;
pub mod models;
pub mod theme;
pub mod config;
pub mod local;
pub mod gcal;
pub mod auth;
pub mod app;
pub mod keys;
pub mod flow;
pub mod screen;
pub mod cli;
