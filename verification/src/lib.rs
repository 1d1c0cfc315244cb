//! A dual-protocol gateway core: the verified logic behind a service that
//! accepts tool-execution requests over REST/JSON and over a binary RPC
//! schema, normalizes them into one internal form, and renders the
//! execution result back onto whichever transport the request used.

pub mod codec;
pub mod correlate;
pub mod errors;
pub mod gateway;
pub mod health;
pub mod rest;
