//! The shipper's decisions: what a batch looks like on the wire and how many
//! times it is offered to the backend.

pub mod http;
