//! Tests for translation units, path handling and the IR records.
use cgen::ir::{CType, FnSignature, Struct, TranslationUnit, Variable};
use cgen::paths::{base_name_of, has_c_extension};
use proc_macro2::TokenStream;

fn fragment(text: &str) -> TokenStream {
    text.parse().expect("fragment must parse")
}

#[test]
fn unit_name_is_the_base_name() {
    let unit = TranslationUnit::new("res/test/dir/a.c", vec![]);
    assert_eq!(unit.name(), "a.c");

    let bare = TranslationUnit::new("b.c", vec![]);
    assert_eq!(bare.name(), "b.c");
}

#[test]
fn unit_concatenates_fragments_in_order() {
    let unit = TranslationUnit::new("a.c", vec![fragment("first"), fragment("second 2")]);
    assert_eq!(unit.tokens().to_string(), "first second 2");
}

#[test]
fn unit_without_fragments_is_empty() {
    let unit = TranslationUnit::new("a.c", vec![]);
    assert!(unit.tokens().to_string().is_empty());
}

#[test]
fn base_name_splits_on_the_last_separator() {
    assert_eq!(base_name_of("x/y/z.c"), "z.c");
    assert_eq!(base_name_of("plain"), "plain");
    assert_eq!(base_name_of(""), "");
}

#[test]
fn extension_check_wants_a_stem_and_the_c_suffix() {
    assert!(has_c_extension("dir/a.c"));
    assert!(has_c_extension("a.b.c"));
    assert!(!has_c_extension("dir/a.h"));
    assert!(!has_c_extension("dir/.c"));
    assert!(!has_c_extension("dir/ac"));
    assert!(!has_c_extension("c"));
}

#[test]
fn fn_signature_exposes_its_parts() {
    let params = vec![Variable::new("count".to_string(), CType::new("int".to_string(), None))];
    let signature = FnSignature::new(
        "measure".to_string(),
        CType::new("double (int)".to_string(), Some("double".to_string())),
        params,
    );
    assert_eq!(signature.name(), "measure");
    assert_eq!(signature.ctype().get_display_name(), "double (int)");
    assert_eq!(signature.result_type().get_display_name(), "double");
    assert!(signature.result_type().get_result_type().is_none());
    assert_eq!(signature.parameters().len(), 1);
    assert_eq!(signature.parameters()[0].name(), "count");
}

#[test]
fn struct_record_exposes_its_parts() {
    let fields = vec![
        Variable::new("x".to_string(), CType::new("int".to_string(), None)),
        Variable::new("y".to_string(), CType::new("int".to_string(), None)),
    ];
    let record = Struct::new("Point".to_string(), CType::new("struct Point".to_string(), None), fields);
    assert_eq!(record.name(), "Point");
    assert_eq!(record.ctype().get_display_name(), "struct Point");
    assert_eq!(record.fields().len(), 2);
    assert_eq!(record.fields()[1].name(), "y");
}
