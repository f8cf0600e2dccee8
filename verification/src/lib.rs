//! Event routing core of the Zini task tracker: topic names, the typed local
//! bus, the correlation registries for pending replies, and the decisions of
//! the bridge that connects the bus to the message broker.

pub mod bridge;
pub mod channels;
pub mod correlation;
pub mod events;
pub mod flows;
pub mod interop;
pub mod jobs;
pub mod prompts;
pub mod router;
pub mod session;
pub mod socket;
pub mod tables;
pub mod text;
pub mod users;
pub mod voice;
