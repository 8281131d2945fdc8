//! Reconciliation engine of a dynamic-DNS bridge.
//!
//! A home router reports its public address together with a domain name and
//! a provider credential. One reconciliation run brings the provider's
//! address record for that name in line with the reported address: it
//! resolves the zone that owns the name, locates the record, and overwrites
//! it. Every decision of a run is taken here, as functions from plain values
//! to plain values; whoever drives a run performs the remote calls and hands
//! their outcomes back.

pub mod domain;
pub mod endpoints;
pub mod locator;
pub mod model;
pub mod reconciler;
pub mod run;
pub mod updater;
pub mod zone;
