//! Client-side protocol for a golf handicap provider: a shared bearer
//! credential, a bounded re-authentication loop, and the mapping of the
//! provider's records onto a stable schema.

pub mod error;
pub mod handicap;
pub mod normalize;
pub mod playing_handicaps;
pub mod request;
pub mod retry;
pub mod service;
pub mod settings;
pub mod text;
pub mod token;
pub mod upstream;
