//! Metal / Metal Performance Shaders interface types.
//!
//! The verified part of the library keeps, as plain values, what the
//! Metal objects are built from: the size and storage options of a buffer,
//! the shape of a matrix descriptor and the pairing of a buffer with a
//! descriptor into a matrix.  The handles into the Metal runtime itself
//! live outside this crate.

pub mod options;
pub mod buffer;
pub mod matrix;

pub use options::{mps_data_type_code, resource_options_bits, MpsDataType, ResourceOptions};
pub use buffer::{element_count, BufferModel, MetalBuffer};

pub use matrix::{descriptor_model, descriptor_reads_back, matrix_keeps_its_parts, DescriptorModel, MatrixModel, MpsMatrix, MpsMatrixDescriptor};
