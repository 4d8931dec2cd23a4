use vstd::prelude::*;

verus! {

/// The element kinds of an ONNX tensor that this library knows about,
/// a closed subset of the ONNX `TensorProto.DataType` enumeration.
#[derive(Clone, Copy, Debug, PartialEq, Eq, Structural)]
pub enum TensorProtoDataType {
    UNDEFINED,
    FLOAT,
    UINT8,
    INT8,
    UINT16,
    INT16,
    INT32,
    INT64,
    STRING,
    BOOL,
}

/// The element kind that an ONNX data-type code stands for.
pub open spec fn kind_of_code(code: int) -> Option<TensorProtoDataType> {
    if code == 0 {
        Some(TensorProtoDataType::UNDEFINED)
    } else if code == 1 {
        Some(TensorProtoDataType::FLOAT)
    } else if code == 2 {
        Some(TensorProtoDataType::UINT8)
    } else if code == 3 {
        Some(TensorProtoDataType::INT8)
    } else if code == 4 {
        Some(TensorProtoDataType::UINT16)
    } else if code == 5 {
        Some(TensorProtoDataType::INT16)
    } else if code == 6 {
        Some(TensorProtoDataType::INT32)
    } else if code == 7 {
        Some(TensorProtoDataType::INT64)
    } else if code == 8 {
        Some(TensorProtoDataType::STRING)
    } else if code == 9 {
        Some(TensorProtoDataType::BOOL)
    } else {
        None
    }
}

/// The Rust type that holds one element of the given kind.
/// `UNDEFINED` gets the placeholder `undefined`, which is never emitted.
pub open spec fn rust_type_name(kind: TensorProtoDataType) -> Seq<char> {
    match kind {
        TensorProtoDataType::UNDEFINED => seq!['u', 'n', 'd', 'e', 'f', 'i', 'n', 'e', 'd'],
        TensorProtoDataType::FLOAT => seq!['f', '3', '2'],
        TensorProtoDataType::UINT8 => seq!['u', '8'],
        TensorProtoDataType::INT8 => seq!['i', '8'],
        TensorProtoDataType::UINT16 => seq!['u', '1', '6'],
        TensorProtoDataType::INT16 => seq!['i', '1', '6'],
        TensorProtoDataType::INT32 => seq!['i', '3', '2'],
        TensorProtoDataType::INT64 => seq!['i', '6', '4'],
        TensorProtoDataType::STRING => seq!['&', 's', 't', 'r'],
        TensorProtoDataType::BOOL => seq!['b', 'o', 'o', 'l'],
    }
}

/// Whether tensors of this kind can be written as a literal: only
/// 32-bit floats and 64-bit signed integers can.
pub open spec fn has_literal_form(kind: TensorProtoDataType) -> bool {
    kind == TensorProtoDataType::FLOAT || kind == TensorProtoDataType::INT64
}

/// The name of the Rust type for one element of `onnx_type`.
pub fn rust_type(onnx_type: &TensorProtoDataType) -> (r: String)
    ensures
        r@ == rust_type_name(*onnx_type),
{
    let s: &str = match *onnx_type {
        TensorProtoDataType::UNDEFINED => "undefined",
        TensorProtoDataType::FLOAT => "f32",
        TensorProtoDataType::UINT8 => "u8",
        TensorProtoDataType::INT8 => "i8",
        TensorProtoDataType::UINT16 => "u16",
        TensorProtoDataType::INT16 => "i16",
        TensorProtoDataType::INT32 => "i32",
        TensorProtoDataType::INT64 => "i64",
        TensorProtoDataType::STRING => "&str",
        TensorProtoDataType::BOOL => "bool",
    };
    proof {
        reveal_strlit("undefined");
        reveal_strlit("f32");
        reveal_strlit("u8");
        reveal_strlit("i8");
        reveal_strlit("u16");
        reveal_strlit("i16");
        reveal_strlit("i32");
        reveal_strlit("i64");
        reveal_strlit("&str");
        reveal_strlit("bool");
    }
    s.to_string()
}

/// Every element kind has a Rust type name, and none of them is empty.
pub proof fn lemma_type_mapping_total(kind: TensorProtoDataType)
    ensures
        rust_type_name(kind).len() > 0,
{
}

} // verus!
