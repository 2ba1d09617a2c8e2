//! Core of a live Ogg/Opus relay: classify incoming container pages, cache the
//! stream's header pages, fan data pages out to independent subscribers, and
//! decide handshakes and HTTP dispatch — all as verified, panic-free functions.

pub mod args;
pub mod auth;
pub mod bus;
pub mod cache;
pub mod config;
pub mod delivery;
pub mod ingest;
pub mod pages;
