//! The request pipeline and the record rules of the Rivet Head diary
//! service, verified with Verus.
//!
//! A request passes four stages in a fixed order: the authentication guard,
//! the rate limiter, the cross-origin policy and the router ([`pipeline`],
//! [`middleware`], [`routes::router`]). The handler it reaches validates its
//! input ([`validation`]), decides on one write against the table of diary
//! entries ([`routes::diary`], [`statement`]) and turns what the store
//! reports into a response ([`response`]). The table itself, with its unique
//! key and its stamps, is [`store`]; [`service`] runs the whole over a store
//! held in memory.
//!
//! Nothing here touches a socket or a database: the caller takes plain
//! values off the wire, hands them in, and acts on what comes back. The few
//! calls into other crates stand in [`trusted`].

pub mod domain;
pub mod errors;
pub mod middleware;
pub mod pipeline;
pub mod request;
pub mod response;
pub mod routes;
pub mod service;
pub mod statement;
pub mod store;
pub mod text;
pub mod trusted;
pub mod validation;
