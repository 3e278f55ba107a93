//! The architecture of RXH is "master-server": one master task owns one
//! server task for each listening address. The tasks themselves wait on
//! sockets, permits and channels; what they do with what they observe is
//! decided here, by state machines that are told each observation and answer
//! with the next thing to do. See [`master`] and [`server`].

pub mod master;
pub mod server;
