//! The decision logic of a small set of dataflow nodes: a counting source,
//! a random source, the fizz and buzz operators, a generic sink, a frame
//! concatenation operator and an object-detection operator.
//!
//! Each node is split into the part that computes (here, verified) and the
//! part that talks to the dataflow runtime, the file system or the image
//! library (kept outside this crate).

pub mod ports;
pub mod fizzbuzz;
pub mod counter;
pub mod random;
pub mod sink;
pub mod frames;
pub mod text;
pub mod detection;
