//! A verified NATS bridge for a payments router: it turns payment and refund
//! operations into NATS messages (subject, headers and body), turns worker
//! replies back into router results, and decides the connection, stream and
//! publish steps that the asynchronous runtime carries out.

pub mod amount;
pub mod headers;
pub mod domain;
pub mod transformers;
pub mod connector;
pub mod client_pool;
pub mod laws;
