//! Library for a soil-moisture collector: a framed serial request/response
//! protocol with CRC-8 (MAXIM/DOW) checksums, a last-reading metric sink,
//! device-path resolution, and a plaintext metrics exposition.

pub mod codec;
pub mod device_path;
pub mod exposition;
pub mod ports;
pub mod sink;
