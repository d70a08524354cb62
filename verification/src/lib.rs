//! Host side of the XLink protocol spoken by DepthAI cameras.

pub mod bootloader;
pub mod chunks;
pub mod clock;
pub mod connection;
pub mod connection_laws;
pub mod discovery;
pub mod event;
pub mod firmware;
pub mod float;
pub mod io;
pub mod io_event_laws;
pub mod io_laws;
pub mod name;
pub mod pipeline;
pub mod pipelines;
pub mod pipelines_laws;
pub mod rpc;
pub mod table;
pub mod text;
pub mod wire;
