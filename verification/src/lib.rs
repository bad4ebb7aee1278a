//! A ticket store owned by a single worker and reached only by messages.
//!
//! Callers hold a cheap, cloneable client handle. Every call builds a command
//! that carries its payload together with the sending half of a one-shot
//! response channel, hands it to the worker over a shared inbound channel and
//! waits for the answer on the private receiving half. The worker is the only
//! owner of the [`store::TicketStore`], so the store needs no locking.
//!
//! Two front ends exist: [`unbounded`], whose inbound channel buffers without
//! limit, and [`bounded`], whose inbound channel has a fixed capacity and hands
//! a request back at once when it is saturated. Each offers the client
//! handle, and the worker: `server` is one turn of it, and `Worker` holds
//! the receiving half together with a store of its own making; the worker's
//! thread takes turns until one returns `Stopped`.
//!
//! [`model`] is the mathematical account of the worker that the contracts of
//! the executable code are stated over, and [`laws`] proves what follows from
//! it. [`worker`] holds what the worker decides for each request, [`pending`]
//! the caller's wait for an answer, and [`transport`] the channels of the
//! standard library, which are taken on trust.

pub mod data;
pub mod model;
pub mod store;
pub mod laws;
pub mod transport;
pub mod worker;
pub mod pending;
pub mod unbounded;
pub mod bounded;
