//! Public-address watching: trimming fetched answers, choosing a resolution
//! source, detecting changes between ticks and planning the notifications
//! that a change sends out.

pub mod address;
pub mod source;
pub mod monitor;
pub mod notify;
pub mod dispatch;
pub mod config;
