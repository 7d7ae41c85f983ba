//! Request handling for a lightweight speech synthesis and speech editing
//! runtime: the tasks that clients submit, how the worker pool routes them,
//! how they are forwarded to an upstream inference backend, the locally
//! simulated audio stream, the HTTP and gRPC request decoding, and the
//! selection of ONNX model files.

pub mod engine;
pub mod http;
pub mod grpc;
pub mod onnx;
