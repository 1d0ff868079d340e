//! Native-side boundary layer for a managed host process: boundary contract
//! types, resource-handle lifecycle, fence synchronization, and a sequential
//! binary reader for fixed-layout records.

pub mod buffers;
pub mod fence;
pub mod interop;
pub mod logging;
pub mod serialization;
