//! Session and real-time delivery subsystem: password login, access/refresh
//! token issuance and rotation with reuse detection, and a per-user in-process
//! event bus that fans task/notification/message changes out to live stream
//! subscriptions.

use vstd::prelude::*;

pub mod bus;
pub mod dto;
pub mod gateway;
pub mod models;
pub mod password;
pub mod providers;
pub mod session;
pub mod store;
pub mod token;

verus! {

/// Lifetime of an access token, in seconds (15 minutes).
pub const ACCESS_TTL_SECONDS: u64 = 900;

/// Lifetime of a refresh token, in seconds (30 days).
pub const REFRESH_TTL_SECONDS: u64 = 2592000;

/// Capacity of each subscription's delivery buffer; a publish to a full
/// buffer drops the incoming event for that subscriber.
pub const EVENT_BUFFER_SIZE: usize = 64;

/// Interval between keepalive ticks on a stream connection, in seconds.
pub const HEARTBEAT_INTERVAL_SECONDS: u64 = 30;

} // verus!
