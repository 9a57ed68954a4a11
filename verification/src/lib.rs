//! Failure classification and TLS negotiation for a PostgreSQL wire-protocol
//! client.
//!
//! The crate has two independent halves:
//!
//! * an error taxonomy: the [`error::ConnectError`] and [`error::Error`]
//!   variant sets that classify every failure seen while establishing or
//!   using a connection, the structured server report [`error::DbError`],
//!   and the advisory SQLSTATE class table in [`sqlstate`];
//! * a TLS negotiation contract: the [`tls::TlsStream`] and
//!   [`tls::TlsHandshake`] capabilities a cryptographic backend must offer,
//!   together with the [`conn`] module's desynchronization state machine
//!   that guards every operation on a live connection.

pub mod conn;
pub mod error;
pub mod failures;
pub mod sqlstate;
pub mod tls;
pub mod types;
