//! A dynamic-DNS updater core.
//!
//! The library decides, for a list of configured domain targets, whether the
//! caller's current public IP already matches each target's DNS record, what
//! to send to the DNS provider when it does not, and which status message to
//! report for each target. All outbound HTTP traffic is left to the caller:
//! the orchestrator is a state machine that hands out [`protocol::Action`]
//! values (the calls to perform) and consumes [`protocol::Event`] values (what
//! the collaborators answered).

pub mod config;
pub mod engine;
pub mod laws;
pub mod messages;
pub mod protocol;

pub use config::{config_is_valid, Config, ConfigDomainsStruct};
pub use engine::{event_answers, start, step, update_dns, Phase, RunReport};
pub use protocol::{Action, DdnsError, DnsReadRequest, DnsRecord, DnsWriteRequest, Event,
    NotifyRequest};
