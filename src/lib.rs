//! Verified core of a service that relays "stream went live" notifications
//! from the Twitch EventSub webhook protocol to a downstream bot.
//!
//! The crate holds the parts that decide: the app token cache, the
//! classification of platform responses, the registry of guild registrations
//! with its reference-count invariant, the webhook signature check and the
//! dispatch of verified webhook messages. Networking and persistence are done
//! by the caller, which hands the results in as plain values.
pub mod api;
pub mod dispatch;
pub mod error;
pub mod registry;
pub mod structs;
pub mod token;
pub mod twitch;
pub mod webhook;
