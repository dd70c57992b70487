//! Transport core of a Discord bot client.
//!
//! Two subsystems carry all the hard logic: a gateway driver that keeps a
//! heartbeating WebSocket session alive (identify, resume, reconnect with
//! back-off, outbound send budget), and a REST client that submits requests
//! under Discord's per-route and global rate limits (bucket learning, 429
//! retry, multipart uploads).  Both are written as state machines over plain
//! values, with their contracts checked by Verus; the surrounding I/O loops
//! live outside the library and only perform the actions the library decides.

use vstd::prelude::*;

pub mod bot;
pub mod events;
pub mod gateway;
pub mod handlers;
pub mod http;
pub mod json;
pub mod outside;
pub mod text;
pub mod types;

verus! {

/// Clamp a mathematical integer into the `u64` range.
pub open spec fn saturate_u64(x: int) -> u64 {
    if x > u64::MAX {
        u64::MAX
    } else if x < 0 {
        0
    } else {
        x as u64
    }
}

/// Saturating addition on instants and durations in milliseconds.
pub fn saturating_add_ms(a: u64, b: u64) -> (r: u64)
    ensures
        r == saturate_u64(a + b),
{
    match a.checked_add(b) {
        Some(sum) => sum,
        None => u64::MAX,
    }
}

} // verus!
