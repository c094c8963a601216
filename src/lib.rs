//! Core of a poller for an Aranet4 environmental sensor: the payload decoder,
//! the read protocol as a state machine, the latest-reading cell and the
//! arithmetic and ordering rules of history queries.
pub mod cell;
pub mod decode;
pub mod history;
pub mod reader;
pub mod reading;
