//! Change-data-capture core for PostgreSQL logical replication.
//!
//! The crate holds the pure part of a replication client: the codec for the
//! frames that travel over the streaming connection, the decoder for the
//! change records carried inside them, the assembler that groups records into
//! atomic transactions, the session logic that ties these together and
//! answers keepalives, and the publisher that fans completed transactions out
//! to subscribers.
//!
//! Every executable function carries a contract over a mathematical model of
//! its data, and the contracts are machine checked. Socket handling and the
//! asynchronous runtime live outside this crate; they hand frames in as byte
//! slices and carry out what the session decides.
pub mod assembler;
pub mod buffer;
pub mod commands;
pub mod decoder;
pub mod frame;
pub mod model;
pub mod publisher;
pub mod session;
pub mod wire;
