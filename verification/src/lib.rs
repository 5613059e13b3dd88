//! A client-side implementation of the MQTT 3.1.1 packet codec and of the
//! delivery bookkeeping that the three quality-of-service levels demand.

pub mod delivery;
pub mod error;
pub mod packet;
pub mod qos;
pub mod session;
