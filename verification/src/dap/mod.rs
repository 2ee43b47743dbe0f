//! The Debug Adapter Protocol data model: messages, requests, responses,
//! events, capabilities and the data types they carry.

pub mod base;
pub mod capabilities;
pub mod enums;
pub mod events;
pub mod requests;
pub mod reverse_requests;
pub mod types;
