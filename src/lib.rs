//! Platform layer of a small rendering engine.
//!
//! The graphics driver and the host window system are reached only from the
//! application around this library. What is decided on the way there (the
//! vertex attribute layout of a draw, the texture units that sampler uniforms
//! are bound to, the sequence of shader compilation and linking, region
//! bounds, default colours and filters, and the dispatch of input events) is
//! computed here as plain values and proved against its contract.
pub mod input;
pub mod program;
pub mod render;
pub mod texture;
pub mod vertex;
