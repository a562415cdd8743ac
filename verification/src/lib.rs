//! A polling notifier core: decides which freshly fetched forum posts have not
//! yet triggered a push notification, renders the notification payloads, and
//! drives a bounded-retry delivery loop that commits the "seen" state only
//! after the gateway has confirmed a delivery.
//!
//! All network and file I/O lives outside this crate; the crate's functions
//! work on plain values handed in by the surrounding program.

pub mod dispatch;
pub mod filter;
pub mod id;
pub mod laws;
pub mod post;
pub mod store;
