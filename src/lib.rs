//! Turns the constant tensors of an ONNX model into Rust constant
//! declarations: a nested array type and a nested array literal per tensor.

pub mod element;
pub mod error;
pub mod generator;
pub mod ident;
pub mod laws;
pub mod literal;
pub mod numeral;
pub mod shape;
pub mod text;

pub use element::{rust_type, TensorProtoDataType};
pub use error::CodegenError;
pub use generator::{GenerationAborted, GraphProto, ModelProto, OnnxCodeGenerator, TensorProto};
pub use literal::generate_array_data_string;
pub use shape::generate_array_declaration_string;
