use std::path::PathBuf;

use onnx_codegen::element::rust_type;
use onnx_codegen::generator::{build_tensor_literal, tensor_declaration};
use onnx_codegen::ident::{identifier_with_classes, is_identifier};
use onnx_codegen::numeral::{decimal_numeral, numerals_only};
use onnx_codegen::literal::int64_cells;
use onnx_codegen::text::decimal_string;
use onnx_codegen::{
    generate_array_data_string, generate_array_declaration_string, CodegenError,
    GenerationAborted, GraphProto, ModelProto, OnnxCodeGenerator, TensorProto,
    TensorProtoDataType,
};

fn float_cells(data: &[f32]) -> Vec<String> {
    data.iter().map(|x| format!("{:.16}", x)).collect()
}

fn float_tensor(name: &str, dims: Vec<i64>, data: &[f32]) -> TensorProto {
    TensorProto {
        name: Some(name.to_string()),
        data_type: Some(1),
        dims,
        float_data: float_cells(data),
        int64_data: Vec::new(),
    }
}

fn int_tensor(name: &str, dims: Vec<i64>, data: Vec<i64>) -> TensorProto {
    TensorProto {
        name: Some(name.to_string()),
        data_type: Some(7),
        dims,
        float_data: Vec::new(),
        int64_data: data,
    }
}

#[test]
fn test_generate_array_data_string() {
    let dimensions = vec![2, 4];
    let data: Vec<f32> = vec![1.0, 2.0, 3.0, 4.0, 5.0, 6.0, 7.0, 8.0];
    let data_array = generate_array_data_string(&dimensions, &float_cells(&data)).unwrap();
    assert_eq!(data_array, "[[1.0000000000000000, 2.0000000000000000, 3.0000000000000000, 4.0000000000000000], [5.0000000000000000, 6.0000000000000000, 7.0000000000000000, 8.0000000000000000]]");
}

#[test]
fn test_generate_array_data_string_1d_input() {
    let dimensions = vec![2];
    let data: Vec<f32> = vec![1.0, 2.0];
    let data_array = generate_array_data_string(&dimensions, &float_cells(&data)).unwrap();
    assert_eq!(data_array, "[1.0000000000000000, 2.0000000000000000]");
}

#[test]
fn test() {
    let data: Vec<f32> = vec![1.0, 2.0, 3.0, 4.0, 5.0, 6.0, 7.0, 8.0];
    let other_array = &data[0..data.len()];
    println!("data: {:?}", data);
    println!("other_array: {:?}", other_array);
}

#[test]
fn every_code_decodes_to_a_named_kind() {
    let expected = [
        (TensorProtoDataType::UNDEFINED, "undefined"),
        (TensorProtoDataType::FLOAT, "f32"),
        (TensorProtoDataType::UINT8, "u8"),
        (TensorProtoDataType::INT8, "i8"),
        (TensorProtoDataType::UINT16, "u16"),
        (TensorProtoDataType::INT16, "i16"),
        (TensorProtoDataType::INT32, "i32"),
        (TensorProtoDataType::INT64, "i64"),
        (TensorProtoDataType::STRING, "&str"),
        (TensorProtoDataType::BOOL, "bool"),
    ];
    for (code, (kind, name)) in expected.iter().enumerate() {
        let decoded = OnnxCodeGenerator::from_i32(code as i32).unwrap();
        assert_eq!(decoded, *kind);
        assert_eq!(rust_type(&decoded), *name);
        assert!(!rust_type(&decoded).is_empty());
    }
}

#[test]
fn codes_outside_the_enumeration_decode_to_none() {
    assert_eq!(OnnxCodeGenerator::from_i32(10), None);
    assert_eq!(OnnxCodeGenerator::from_i32(-1), None);
    assert_eq!(OnnxCodeGenerator::from_i32(i32::MAX), None);
}

#[test]
fn rank_one_declaration() {
    assert_eq!(generate_array_declaration_string(&vec![7], "f32").unwrap(), "[f32; 7]");
    assert_eq!(generate_array_declaration_string(&vec![1], "i64").unwrap(), "[i64; 1]");
}

#[test]
fn declaration_nests_first_dimension_outermost() {
    assert_eq!(
        generate_array_declaration_string(&vec![2, 4], "f32").unwrap(),
        "[[f32; 4]; 2]"
    );
    assert_eq!(
        generate_array_declaration_string(&vec![1, 2, 3], "i64").unwrap(),
        "[[[i64; 3]; 2]; 1]"
    );
}

#[test]
fn empty_shape_is_rejected_by_both_builders() {
    assert_eq!(
        generate_array_declaration_string(&vec![], "f32"),
        Err(CodegenError::EmptyShapeError)
    );
    assert_eq!(
        generate_array_data_string(&vec![], &vec![]),
        Err(CodegenError::EmptyShapeError)
    );
    let t = float_tensor("w", vec![], &[]);
    assert_eq!(tensor_declaration(&t), Err(CodegenError::EmptyShapeError));
}

#[test]
fn data_length_must_match_the_shape() {
    let cells = float_cells(&[1.0, 2.0, 3.0]);
    assert_eq!(
        generate_array_data_string(&vec![2, 2], &cells),
        Err(CodegenError::DataShapeMismatch)
    );
    assert_eq!(
        generate_array_data_string(&vec![-1, -3], &cells),
        Err(CodegenError::DataShapeMismatch)
    );
    assert_eq!(
        generate_array_data_string(&vec![i64::MAX, i64::MAX], &cells),
        Err(CodegenError::DataShapeMismatch)
    );
}

#[test]
fn zero_sized_dimensions_give_empty_levels() {
    assert_eq!(generate_array_data_string(&vec![0], &vec![]).unwrap(), "[]");
    assert_eq!(generate_array_data_string(&vec![2, 0], &vec![]).unwrap(), "[[], []]");
}

#[test]
fn literal_of_rank_three() {
    let cells = int64_cells(&vec![1, 2, 3, 4, 5, 6, 7, 8]);
    assert_eq!(
        generate_array_data_string(&vec![2, 2, 2], &cells).unwrap(),
        "[[[1, 2], [3, 4]], [[5, 6], [7, 8]]]"
    );
}

#[test]
fn integers_are_written_in_decimal() {
    assert_eq!(decimal_string(0), "0");
    assert_eq!(decimal_string(42), "42");
    assert_eq!(decimal_string(-7), "-7");
    assert_eq!(decimal_string(i64::MAX), i64::MAX.to_string());
    assert_eq!(decimal_string(i64::MIN), i64::MIN.to_string());
}

#[test]
fn bool_tensor_has_no_literal() {
    let mut t = int_tensor("flags", vec![2], vec![1, 0]);
    t.data_type = Some(9);
    assert_eq!(
        build_tensor_literal(&t, TensorProtoDataType::BOOL),
        Err(CodegenError::UnsupportedLiteralType)
    );
    assert_eq!(tensor_declaration(&t), Err(CodegenError::UnsupportedLiteralType));
}

#[test]
fn int64_tensor_literal() {
    let t = int_tensor("shape", vec![3], vec![1, -2, 30]);
    assert_eq!(
        build_tensor_literal(&t, TensorProtoDataType::INT64).unwrap(),
        "[1, -2, 30]"
    );
}

#[test]
fn identifiers_follow_the_rust_grammar() {
    assert!(is_identifier("conv1_weight"));
    assert!(is_identifier("_bias"));
    assert!(is_identifier("gewicht_\u{e4}"));
    assert!(is_identifier("r#fn"));
    assert!(!is_identifier(""));
    assert!(!is_identifier("1abc"));
    assert!(!is_identifier("a b"));
    assert!(!is_identifier(" a"));
    assert!(!is_identifier("a.b"));
    assert!(!is_identifier("a\""));
    assert!(!is_identifier("r#"));
    assert!(!is_identifier("-x"));
}

#[test]
fn keywords_and_underscore_are_not_names() {
    for word in ["fn", "static", "self", "Self", "extern", "_", "async", "yield"] {
        assert!(!is_identifier(word), "{word}");
    }
    for word in ["r#_", "r#self", "r#Self", "r#super", "r#crate"] {
        assert!(!is_identifier(word), "{word}");
    }
    assert!(is_identifier("union"));
}

#[test]
fn identifier_decision_reads_the_classes() {
    let w_ok = vec![(true, true)];
    assert!(identifier_with_classes("w", &w_ok));
    assert!(!identifier_with_classes("w", &vec![(false, true)]));
    assert!(!identifier_with_classes("_", &vec![(false, true)]));
    assert!(identifier_with_classes("_a", &vec![(false, true), (true, true)]));
    assert!(!identifier_with_classes("ab", &vec![(true, true), (true, false)]));
    assert!(!identifier_with_classes("ab", &w_ok));
}

#[test]
fn decimal_numerals() {
    assert!(decimal_numeral("1.0000000000000000"));
    assert!(decimal_numeral("-0.5000000000000000"));
    assert!(decimal_numeral("42"));
    assert!(!decimal_numeral(""));
    assert!(!decimal_numeral("-"));
    assert!(!decimal_numeral("NaN"));
    assert!(!decimal_numeral("inf"));
    assert!(!decimal_numeral("-inf"));
    assert!(!decimal_numeral("1."));
    assert!(!decimal_numeral(".5"));
    assert!(!decimal_numeral("1.2.3"));
    assert!(!decimal_numeral("1]; fn x() {"));
    assert!(numerals_only(&float_cells(&[1.0, -2.5, 1e30])));
    assert!(!numerals_only(&float_cells(&[1.0, f32::NAN])));
}

#[test]
fn float_cells_must_be_numerals() {
    let t = float_tensor("w", vec![2], &[1.0, f32::INFINITY]);
    assert_eq!(
        build_tensor_literal(&t, TensorProtoDataType::FLOAT),
        Err(CodegenError::UnsupportedLiteralType)
    );
    let mut t = float_tensor("w", vec![1], &[1.0]);
    t.float_data = vec!["0]; fn evil() {}; static X: [f32; 1] = [0".to_string()];
    assert_eq!(tensor_declaration(&t), Err(CodegenError::UnsupportedLiteralType));
}

#[test]
fn tensor_declaration_checks_in_order() {
    let mut t = float_tensor("w", vec![1], &[1.0]);
    t.name = None;
    assert_eq!(tensor_declaration(&t), Err(CodegenError::MissingName));
    let t = float_tensor("not an ident", vec![1], &[1.0]);
    assert_eq!(tensor_declaration(&t), Err(CodegenError::InvalidName));
    let t = float_tensor("static", vec![1], &[1.0]);
    assert_eq!(tensor_declaration(&t), Err(CodegenError::InvalidName));
    let mut t = float_tensor("w", vec![1], &[1.0]);
    t.data_type = None;
    assert_eq!(tensor_declaration(&t), Err(CodegenError::MissingElementType));
    t.data_type = Some(42);
    assert_eq!(tensor_declaration(&t), Err(CodegenError::UnknownElementType));
    t.data_type = Some(0);
    assert_eq!(tensor_declaration(&t), Err(CodegenError::UnsupportedLiteralType));
}

#[test]
fn tensor_declaration_text() {
    let t = float_tensor("w", vec![2], &[1.0, 2.0]);
    assert_eq!(
        tensor_declaration(&t).unwrap(),
        "pub static w: [f32; 2] = [1.0000000000000000, 2.0000000000000000];"
    );
}

fn sample_model() -> ModelProto {
    ModelProto {
        graph: Some(GraphProto {
            initializer: vec![
                float_tensor("a", vec![2, 1], &[0.5, -1.0]),
                int_tensor("b", vec![2], vec![3, 4]),
            ],
        }),
    }
}

#[test]
fn whole_model_is_generated_in_order() {
    let model = sample_model();
    let gen = OnnxCodeGenerator::new(&model, PathBuf::from("out.rs"));
    assert_eq!(
        gen.generate_tensor_data().unwrap(),
        "pub static a: [[f32; 1]; 2] = [[0.5000000000000000], [-1.0000000000000000]];\n\
         pub static b: [i64; 2] = [3, 4];\n"
    );
}

#[test]
fn generation_is_deterministic() {
    let model = sample_model();
    let gen = OnnxCodeGenerator::new(&model, PathBuf::from("out.rs"));
    assert_eq!(gen.generate_tensor_data(), gen.generate_tensor_data());
}

#[test]
fn permuting_tensors_permutes_declarations() {
    let forward = sample_model();
    let mut tensors = forward.graph.unwrap().initializer;
    tensors.reverse();
    let backward = ModelProto { graph: Some(GraphProto { initializer: tensors }) };
    let forward = sample_model();
    let f = OnnxCodeGenerator::new(&forward, PathBuf::from("a.rs")).generate_tensor_data().unwrap();
    let b = OnnxCodeGenerator::new(&backward, PathBuf::from("b.rs")).generate_tensor_data().unwrap();
    let mut f_lines: Vec<&str> = f.lines().collect();
    f_lines.reverse();
    let b_lines: Vec<&str> = b.lines().collect();
    assert_eq!(f_lines, b_lines);
}

#[test]
fn generation_stops_at_first_failing_tensor() {
    let mut model = sample_model();
    if let Some(g) = model.graph.as_mut() {
        g.initializer.push(float_tensor("c", vec![], &[]));
        g.initializer.push(int_tensor("d", vec![3], vec![1]));
    }
    let gen = OnnxCodeGenerator::new(&model, PathBuf::from("out.rs"));
    assert_eq!(
        gen.generate_tensor_data(),
        Err(GenerationAborted {
            tensor: Some(2),
            name: Some("c".to_string()),
            error: CodegenError::EmptyShapeError
        })
    );
}

#[test]
fn bool_tensor_aborts_generation_with_its_name() {
    let mut model = sample_model();
    let mut flags = int_tensor("flags", vec![2], vec![1, 0]);
    flags.data_type = Some(9);
    if let Some(g) = model.graph.as_mut() {
        g.initializer.insert(1, flags);
    }
    let gen = OnnxCodeGenerator::new(&model, PathBuf::from("out.rs"));
    assert_eq!(
        gen.generate_tensor_data(),
        Err(GenerationAborted {
            tensor: Some(1),
            name: Some("flags".to_string()),
            error: CodegenError::UnsupportedLiteralType
        })
    );
}

#[test]
fn model_without_graph_fails() {
    let model = ModelProto { graph: None };
    let gen = OnnxCodeGenerator::new(&model, PathBuf::from("out.rs"));
    assert_eq!(
        gen.generate_tensor_data(),
        Err(GenerationAborted { tensor: None, name: None, error: CodegenError::MissingGraph })
    );
}

#[test]
fn output_file_can_be_replaced() {
    let model = ModelProto { graph: None };
    let mut gen = OnnxCodeGenerator::new(&model, PathBuf::from("first.rs"));
    gen.set_output_file(PathBuf::from("second.rs"));
    assert_eq!(gen.output_file, PathBuf::from("second.rs"));
}
