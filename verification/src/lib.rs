//! Types and decoding logic for Substrate-based networks: SCALE decoding of runtime
//! data driven by a runtime type registry, account and validator presentation, and
//! the summaries that the services publish.

pub mod app;
pub mod bits;
pub mod codec;
pub mod crypto;
pub mod digest;
pub mod diff;
pub mod dispatch;
pub mod dispatch_events;
pub mod encoding_laws;
pub mod error;
pub mod event;
pub mod extrinsic;
pub mod field;
pub mod governance;
pub mod identity;
pub mod laws;
pub mod strings;
pub mod server;
pub mod service;
pub mod staking;
pub mod storage;
pub mod substrate;
pub mod subvt;
pub mod telegram;
pub mod text;
pub mod metadata;
pub mod numeric;
pub mod para;
pub mod records;
pub mod referendum_events;
pub mod report;
