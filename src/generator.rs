use vstd::prelude::*;
use vstd::string::StringExecFns;
use crate::element::{has_literal_form, kind_of_code, rust_type, rust_type_name, TensorProtoDataType};
use crate::error::CodegenError;
use crate::ident::{is_identifier, is_identifier_text};
use crate::numeral::{all_numerals, numerals_only};
use crate::literal::{generate_array_data_string, int64_cells, int_cells, literal_text, shape_error};
use crate::shape::{array_type_text, generate_array_declaration_string};

verus! {

/// `std::path::PathBuf`, held opaque: the library only carries the output path.
#[verifier::external_type_specification]
#[verifier::external_body]
pub struct ExPathBuf(std::path::PathBuf);

/// The fields of an ONNX `TensorProto` that code generation reads.
pub struct TensorProto {
    pub name: Option<String>,
    /// The ONNX data-type code of the elements.
    pub data_type: Option<i32>,
    pub dims: Vec<i64>,
    /// The 32-bit float elements in row-major order, each written with
    /// sixteen digits after the decimal point (`1.0000000000000000`).
    pub float_data: Vec<String>,
    /// The 64-bit integer elements in row-major order.
    pub int64_data: Vec<i64>,
}

/// The part of an ONNX graph that code generation reads: its constant tensors.
pub struct GraphProto {
    pub initializer: Vec<TensorProto>,
}

/// An ONNX model, as far as code generation reads it.
pub struct ModelProto {
    pub graph: Option<GraphProto>,
}

/// Why generating the declarations of a model stopped.
#[derive(Clone, Debug, PartialEq, Eq)]
pub struct GenerationAborted {
    /// The position of the tensor that failed; `None` when the model has no graph.
    pub tensor: Option<usize>,
    /// The name of the tensor that failed, where it has one.
    pub name: Option<String>,
    pub error: CodegenError,
}

/// Writes the constant tensors of one model out as Rust declarations.
pub struct OnnxCodeGenerator<'a> {
    pub model_proto: &'a ModelProto,
    /// Where the caller is to write the generated source.
    pub output_file: std::path::PathBuf,
}

/// The text of the cells of a tensor's literal: the float elements as given,
/// or the integer elements in decimal.
pub open spec fn tensor_cells(
    kind: TensorProtoDataType,
    floats: Seq<Seq<char>>,
    ints: Seq<i64>,
) -> Seq<Seq<char>> {
    if kind == TensorProtoDataType::FLOAT {
        floats
    } else {
        int_cells(ints)
    }
}

/// The literal of a tensor of the given kind, or why there is none. A float
/// cell that is not a decimal numeral (a NaN or an infinity, or any other
/// text) has no literal form either.
pub open spec fn literal_of(
    kind: TensorProtoDataType,
    dims: Seq<i64>,
    floats: Seq<Seq<char>>,
    ints: Seq<i64>,
) -> Result<Seq<char>, CodegenError> {
    if !has_literal_form(kind) {
        Err(CodegenError::UnsupportedLiteralType)
    } else if kind == TensorProtoDataType::FLOAT && !all_numerals(floats) {
        Err(CodegenError::UnsupportedLiteralType)
    } else {
        let cells = tensor_cells(kind, floats, ints);
        match shape_error(dims, cells.len() as int) {
            Some(e) => Err(e),
            None => Ok(literal_text(dims, cells)),
        }
    }
}

/// `pub static <name>: <ty> = <literal>;`
pub open spec fn static_text(name: Seq<char>, ty: Seq<char>, lit: Seq<char>) -> Seq<char> {
    "pub static "@ + name + ": "@ + ty + " = "@ + lit + ";"@
}

/// The declaration of one tensor, or the first check that it fails, in the
/// order name, element type, shape, literal.
pub open spec fn declaration_of(t: TensorProto) -> Result<Seq<char>, CodegenError> {
    match t.name {
        None => Err(CodegenError::MissingName),
        Some(name) => if !is_identifier_text(name@) {
            Err(CodegenError::InvalidName)
        } else {
            match t.data_type {
                None => Err(CodegenError::MissingElementType),
                Some(code) => match kind_of_code(code as int) {
                    None => Err(CodegenError::UnknownElementType),
                    Some(kind) => if t.dims@.len() == 0 {
                        Err(CodegenError::EmptyShapeError)
                    } else {
                        match literal_of(kind, t.dims@, t.float_data.deep_view(), t.int64_data@) {
                            Err(e) => Err(e),
                            Ok(lit) => Ok(
                                static_text(
                                    name@,
                                    array_type_text(t.dims@, rust_type_name(kind)),
                                    lit,
                                ),
                            ),
                        }
                    },
                },
            }
        },
    }
}

/// The generated source of a sequence of tensors: each declaration followed
/// by a line break, in the order given; or the position of the first tensor
/// that fails and why.
pub open spec fn source_of(ts: Seq<TensorProto>) -> Result<Seq<char>, (int, CodegenError)>
    decreases ts.len(),
{
    if ts.len() == 0 {
        Ok(Seq::empty())
    } else {
        match source_of(ts.drop_last()) {
            Err(p) => Err(p),
            Ok(prev) => match declaration_of(ts.last()) {
                Err(e) => Err((ts.len() - 1, e)),
                Ok(d) => Ok(prev + d + "\n"@),
            },
        }
    }
}

/// The literal of `tensor`'s data read as elements of `kind`. Only `FLOAT`
/// and `INT64` have a literal form; every other kind fails with
/// `UnsupportedLiteralType` before the data is looked at, as do float cells
/// that are not decimal numerals.
pub fn build_tensor_literal(tensor: &TensorProto, kind: TensorProtoDataType) -> (r: Result<
    String,
    CodegenError,
>)
    ensures
        !has_literal_form(kind) ==> r == Err::<String, CodegenError>(
            CodegenError::UnsupportedLiteralType,
        ),
        match literal_of(kind, tensor.dims@, tensor.float_data.deep_view(), tensor.int64_data@) {
            Ok(s) => r matches Ok(t) && t@ == s,
            Err(e) => r == Err::<String, CodegenError>(e),
        },
{
    match kind {
        TensorProtoDataType::FLOAT => {
            if !numerals_only(&tensor.float_data) {
                return Err(CodegenError::UnsupportedLiteralType);
            }
            generate_array_data_string(&tensor.dims, &tensor.float_data)
        },
        TensorProtoDataType::INT64 => {
            let cells = int64_cells(&tensor.int64_data);
            generate_array_data_string(&tensor.dims, &cells)
        },
        _ => Err(CodegenError::UnsupportedLiteralType),
    }
}

/// The declaration `pub static <name>: <type> = <literal>;` of one tensor.
pub fn tensor_declaration(tensor: &TensorProto) -> (r: Result<String, CodegenError>)
    ensures
        match declaration_of(*tensor) {
            Ok(s) => r matches Ok(t) && t@ == s,
            Err(e) => r == Err::<String, CodegenError>(e),
        },
{
    let name = match &tensor.name {
        None => {
            return Err(CodegenError::MissingName);
        },
        Some(n) => n,
    };
    if !is_identifier(name.as_str()) {
        return Err(CodegenError::InvalidName);
    }
    let code = match tensor.data_type {
        None => {
            return Err(CodegenError::MissingElementType);
        },
        Some(c) => c,
    };
    let kind = match OnnxCodeGenerator::from_i32(code) {
        None => {
            return Err(CodegenError::UnknownElementType);
        },
        Some(k) => k,
    };
    let elem = rust_type(&kind);
    let ty = match generate_array_declaration_string(&tensor.dims, elem.as_str()) {
        Err(e) => {
            return Err(e);
        },
        Ok(t) => t,
    };
    let lit = match build_tensor_literal(tensor, kind) {
        Err(e) => {
            return Err(e);
        },
        Ok(l) => l,
    };
    let mut out = String::new();
    out.append("pub static ");
    out.append(name.as_str());
    out.append(": ");
    out.append(ty.as_str());
    out.append(" = ");
    out.append(lit.as_str());
    out.append(";");
    assert(out@ =~= static_text(name@, ty@, lit@));
    Ok(out)
}

impl<'a> OnnxCodeGenerator<'a> {
    pub fn new(model_proto: &'a ModelProto, output_file: std::path::PathBuf) -> (r: Self)
        ensures
            r.model_proto == model_proto,
            r.output_file == output_file,
    {
        OnnxCodeGenerator { model_proto, output_file }
    }

    pub fn set_output_file(&mut self, output_file: std::path::PathBuf)
        ensures
            final(self).model_proto == old(self).model_proto,
            final(self).output_file == output_file,
    {
        self.output_file = output_file;
    }

    /// Decodes an ONNX data-type code; `None` for a code outside the enumeration.
    pub fn from_i32(value: i32) -> (r: Option<TensorProtoDataType>)
        ensures
            r == kind_of_code(value as int),
    {
        match value {
            0 => Some(TensorProtoDataType::UNDEFINED),
            1 => Some(TensorProtoDataType::FLOAT),
            2 => Some(TensorProtoDataType::UINT8),
            3 => Some(TensorProtoDataType::INT8),
            4 => Some(TensorProtoDataType::UINT16),
            5 => Some(TensorProtoDataType::INT16),
            6 => Some(TensorProtoDataType::INT32),
            7 => Some(TensorProtoDataType::INT64),
            8 => Some(TensorProtoDataType::STRING),
            9 => Some(TensorProtoDataType::BOOL),
            _ => None,
        }
    }

    /// The declarations of all constant tensors of the model, one per line,
    /// in the model's order. Stops at the first tensor that cannot be
    /// declared, and names it by its position.
    pub fn generate_tensor_data(&self) -> (r: Result<String, GenerationAborted>)
        ensures
            match self.model_proto.graph {
                None => r matches Err(a) && a.tensor is None && a.name is None && a.error
                    == CodegenError::MissingGraph,
                Some(g) => match source_of(g.initializer@) {
                    Ok(s) => r matches Ok(t) && t@ == s,
                    Err((i, e)) => r matches Err(a) && a.error == e && a.tensor == Some(
                        i as usize,
                    ) && a.name.deep_view() == g.initializer@[i].name.deep_view(),
                },
            },
    {
        let graph = match &self.model_proto.graph {
            None => {
                return Err(
                    GenerationAborted { tensor: None, name: None, error: CodegenError::MissingGraph },
                );
            },
            Some(g) => g,
        };
        assert(self.model_proto.graph == Some(*graph));
        let tensors = &graph.initializer;
        let mut out = String::new();
        let mut i: usize = 0;
        while i < tensors.len()
            invariant
                0 <= i <= tensors.len(),
                self.model_proto.graph == Some(*graph),
                tensors@ == graph.initializer@,
                source_of(tensors@.take(i as int)) == Ok::<Seq<char>, (int, CodegenError)>(out@),
            decreases tensors.len() - i,
        {
            proof {
                assert(tensors@.take(i + 1).drop_last() =~= tensors@.take(i as int));
            }
            match tensor_declaration(&tensors[i]) {
                Err(e) => {
                    proof {
                        assert(tensors@.take(i + 1).last() == tensors@[i as int]);
                        assert(source_of(tensors@.take(i + 1)) == Err::<Seq<char>, (int, CodegenError)>(
                            (i as int, e),
                        ));
                        lemma_source_prefix_err(tensors@, i as int + 1);
                    }
                    let name = match &tensors[i].name {
                        Some(n) => Some(n.clone()),
                        None => None,
                    };
                    return Err(GenerationAborted { tensor: Some(i), name, error: e });
                },
                Ok(d) => {
                    out.append(d.as_str());
                    out.append("\n");
                    proof {
                        assert(tensors@.take(i + 1).last() == tensors@[i as int]);
                    }
                },
            }
            i = i + 1;
        }
        assert(tensors@.take(tensors.len() as int) =~= tensors@);
        Ok(out)
    }
}

/// Once a prefix of the tensors fails, the whole sequence fails the same way.
pub(crate) proof fn lemma_source_prefix_err(ts: Seq<TensorProto>, k: int)
    requires
        0 <= k <= ts.len(),
        source_of(ts.take(k)) is Err,
    ensures
        source_of(ts) == source_of(ts.take(k)),
    decreases ts.len() - k,
{
    if k < ts.len() {
        assert(ts.take(k + 1).drop_last() =~= ts.take(k));
        lemma_source_prefix_err(ts, k + 1);
    } else {
        assert(ts.take(k) =~= ts);
    }
}

} // verus!
