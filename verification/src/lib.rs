//! Broadcast extraction pipeline for a clan-chat relay.
//!
//! Takes one raw chat line, classifies which game event it announces,
//! extracts the typed fields, enriches drop events with a market price
//! from an injected catalog snapshot, applies a per-destination policy,
//! and renders a structured notice ready for delivery.

pub mod catalog;
pub mod controller;
pub mod event;
pub mod guild;
pub mod notice;
pub mod pipeline;
pub mod policy;
pub mod strutil;
pub mod textscan;
