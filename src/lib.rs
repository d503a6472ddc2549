//! Core logic of a Distributed Aggregation Protocol (DAP) aggregator: media-type
//! negotiation, request authorization, aggregate-share bookkeeping, early
//! rejection of reports, fixed-size batch assignment and task resolution.

pub mod constants;
pub mod messages;
pub mod error;
pub mod auth;
pub mod keyed;
pub mod authorizer;
pub mod aggregate;
pub mod early_reject;
pub mod batch;
pub mod taskprov;
pub mod helper;
pub mod collect;
pub mod store;
pub mod names;
