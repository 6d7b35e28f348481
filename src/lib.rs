//! Votes on links and the scores derived from them.
//!
//! A vote request is validated, the records it depends on are read, a decision is taken on
//! them, and the decision is a plan of writes that keeps every aggregate equal to the sum of
//! the votes behind it. Links are scored from their lifetime aggregates.
//!
//! - `types`: links, votes, records and requests.
//! - `validate`: hostnames, vote values, timestamps, requests.
//! - `keys`: the composite key of each record.
//! - `records`: reading stored records.
//! - `reader`: the context of a vote, from the records read for it, and the whole decision.
//! - `decision`: the policy checks and the plan of a vote.
//! - `plan`: the writes a plan is made of.
//! - `store`: the store in plain values, and what a plan does to it.
//! - `laws`: what recording votes keeps true of the store.
//! - `scoring`: the score of a link.
use vstd::prelude::*;

pub mod decision;
pub mod keys;
pub mod laws;
pub mod plan;
pub mod reader;
pub mod records;
pub mod scoring;
pub mod store;
pub mod types;
pub mod validate;
