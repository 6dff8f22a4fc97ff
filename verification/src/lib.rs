//! Transport multiplexer of a Matter node.
//!
//! The crate holds the decisions of the transport as one state machine,
//! [`transport::Matter`]: it assigns every inbound packet to an exchange,
//! keeps the reliability state of each exchange, hands payloads over to the
//! exchange handlers through a pool of packet buffers, and chooses the next
//! packet that goes out. Reading and writing datagrams, waiting and the
//! protocol handlers themselves stay with the caller, which feeds packets and
//! the current time into the state machine and carries out what it returns.
//!
//! - [`packet`], [`buffers`]: packets, status reports and the buffer pool.
//! - [`mrp`], [`session`], [`exchange`], [`table`]: the reliability state,
//!   the session table, exchanges and the exchange table.
//! - [`model`]: the transport as a mathematical state machine.
//! - [`transport`]: the executable transport, proved to follow the model.
//! - [`laws`]: what holds of the transport whatever it is fed.

pub mod error;
pub mod packet;
pub mod buffers;
pub mod mrp;
pub mod search;
pub mod session;
pub mod exchange;
pub mod table;
pub mod model;
pub mod transport;
pub mod laws;
