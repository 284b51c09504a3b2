//! Typed results, error mapping and address conversion for an asynchronous
//! DNS resolver that sits on top of the c-ares query engine.
//!
//! The engine performs the network I/O and hands back integer status codes,
//! host structures and raw byte buffers.  This crate turns those into values
//! with checked shapes: a closed error type, address families, socket
//! addresses in network byte order, views over host structures whose alias
//! and address lists end at a null entry, and the bookkeeping by which each
//! completion handler of a channel is called once.
//!
//! Nothing here performs I/O or touches raw memory.  A caller that owns a
//! session of the engine hands its outputs in as plain values and carries out
//! what the functions of this crate decide.

pub mod byteorder;
pub mod channel;
pub mod cname;
pub mod error;
pub mod host;
pub mod hostent;
pub mod types;
pub mod utils;

pub use crate::channel::{Channel, Options, RecordKind};
pub use crate::cname::CNameResult;
pub use crate::error::AresError;
pub use crate::host::{
    HostAddressResult, HostAddressResultsIterator, HostAliasResult, HostAliasResultsIterator,
    HostResults,
};
pub use crate::hostent::Hostent;
pub use crate::types::{AddressFamily, IpAddr};
