//! Engine tests driven through an in-memory front end: declaration
//! nodes built directly, so the traversal, classification and
//! deduplication run exactly as they would over parsed C source.
use std::cell::Cell;

use cgen::front::{Child, Decl, NodeKind, SourceFile, Visibility};
use cgen::ir::{CType, Symbol};
use cgen::{ExportPolicy, Generator};
use proc_macro2::TokenStream;

fn ct(display: &str) -> CType {
    CType::new(display.to_string(), None)
}

fn fn_ct(display: &str, result: &str) -> CType {
    CType::new(display.to_string(), Some(result.to_string()))
}

fn param(name: &str, ty: &str) -> Child {
    Child {
        kind: NodeKind::Parameter,
        name: if name.is_empty() { None } else { Some(name.to_string()) },
        ctype: Some(ct(ty)),
    }
}

fn field(name: &str, ty: &str) -> Child {
    Child { kind: NodeKind::Field, name: Some(name.to_string()), ctype: Some(ct(ty)) }
}

fn fn_decl(name: &str, display: &str, result: &str, params: Vec<Child>) -> Decl {
    Decl {
        kind: NodeKind::Function,
        name: Some(name.to_string()),
        ctype: Some(fn_ct(display, result)),
        visibility: Some(Visibility::Default),
        children: params,
    }
}

fn struct_decl(name: &str, fields: Vec<Child>) -> Decl {
    Decl {
        kind: NodeKind::Struct,
        name: Some(name.to_string()),
        ctype: Some(ct(&(String::from("struct ") + name))),
        visibility: None,
        children: fields,
    }
}

fn var_decl(name: &str, ty: &str) -> Decl {
    Decl {
        kind: NodeKind::Variable,
        name: Some(name.to_string()),
        ctype: Some(ct(ty)),
        visibility: Some(Visibility::Default),
        children: vec![],
    }
}

fn file(path: &str, decls: Vec<Decl>) -> SourceFile {
    SourceFile { path: path.to_string(), decls }
}

fn fragment(text: &str) -> TokenStream {
    text.parse().expect("fragment must parse")
}

fn assert_generator_called(units: &[cgen::ir::TranslationUnit], expected: &str) {
    assert!(units.len() > 0, "No files processed");
    let expected = fragment(expected).to_string();
    for (i, unit) in units.iter().enumerate() {
        let tokens = unit.tokens().to_string();
        assert!(
            tokens == expected,
            "Unit {} has invalid tokens. \n\tExpected: `{}`\n\tActual: `{}`",
            i,
            expected,
            tokens
        );
    }
}

#[test]
fn test_generate_fn() {
    let files = vec![
        file("generate_fn_test/fn0.c", vec![fn_decl("fn0", "void ()", "void", vec![])]),
        file(
            "generate_fn_test/fn1.c",
            vec![fn_decl("fn1", "int (char)", "int", vec![param("", "char")])],
        ),
        file(
            "generate_fn_test/fn2.c",
            vec![fn_decl(
                "fn2",
                "double (int, const char *)",
                "double",
                vec![param("arg1", "int"), param("arg2", "const char *")],
            )],
        ),
    ];

    let units = Generator::new().generate(&files, &|symbol: Symbol| {
        if let Symbol::Function(signature) = symbol {
            match signature.name() {
                "fn0" => {
                    assert_eq!(signature.ctype().get_display_name(), "void ()");
                    assert_eq!(signature.result_type().get_display_name(), "void");
                    assert!(signature.parameters().is_empty());
                }
                "fn1" => {
                    assert_eq!(signature.ctype().get_display_name(), "int (char)");
                    assert_eq!(signature.result_type().get_display_name(), "int");
                    assert_eq!(signature.parameters().len(), 1);
                    assert_eq!(signature.parameters()[0].name(), "");
                    assert_eq!(signature.parameters()[0].ctype().get_display_name(), "char");
                }
                "fn2" => {
                    assert_eq!(signature.ctype().get_display_name(), "double (int, const char *)");
                    assert_eq!(signature.result_type().get_display_name(), "double");
                    assert_eq!(signature.parameters().len(), 2);
                    assert_eq!(signature.parameters()[0].name(), "arg1");
                    assert_eq!(signature.parameters()[0].ctype().get_display_name(), "int");
                    assert_eq!(signature.parameters()[1].name(), "arg2");
                    assert_eq!(
                        signature.parameters()[1].ctype().get_display_name(),
                        "const char *"
                    );
                }
                other => panic!("unexpected function {}", other),
            }
        }
        Some(fragment("generate_fn_gen called"))
    });

    assert_generator_called(&units, "generate_fn_gen called");
}

#[test]
fn test_generate_struct() {
    let files = vec![
        file("generate_struct_test/empty.c", vec![struct_decl("Empty", vec![])]),
        file(
            "generate_struct_test/fields.c",
            vec![struct_decl("Fields", vec![field("a", "int"), field("b", "const double *")])],
        ),
        file("generate_struct_test/forward.c", vec![struct_decl("Forward", vec![])]),
        file(
            "generate_struct_test/fwd_fields.c",
            vec![
                struct_decl("FwdFields", vec![]),
                struct_decl("FwdFields", vec![field("some", "int")]),
            ],
        ),
    ];

    let units = Generator::new().generate(&files, &|symbol: Symbol| {
        if let Symbol::Struct(decl) = symbol {
            match decl.name() {
                "Empty" => {
                    assert_eq!(decl.ctype().get_display_name(), "struct Empty");
                    assert!(decl.fields().is_empty());
                }
                "Fields" => {
                    assert_eq!(decl.ctype().get_display_name(), "struct Fields");
                    assert_eq!(decl.fields().len(), 2);
                    assert_eq!(decl.fields()[0].name(), "a");
                    assert_eq!(decl.fields()[0].ctype().get_display_name(), "int");
                    assert_eq!(decl.fields()[1].name(), "b");
                    assert_eq!(decl.fields()[1].ctype().get_display_name(), "const double *");
                }
                "Forward" => {
                    assert!(decl.fields().is_empty());
                }
                "FwdFields" => {
                    if decl.fields().is_empty() {
                        return None;
                    } else {
                        assert_eq!(decl.fields().len(), 1);
                        assert_eq!(decl.fields()[0].name(), "some");
                        assert_eq!(decl.fields()[0].ctype().get_display_name(), "int");
                    }
                }
                other => panic!("unexpected struct {}", other),
            }
        }
        Some(fragment("generate_struct_gen called"))
    });

    assert_generator_called(&units, "generate_struct_gen called");
}

#[test]
fn test_generate_var() {
    let files = vec![file("generate_var_test/var.c", vec![var_decl("test_var", "const char *")])];

    let units = Generator::new().generate(&files, &|symbol: Symbol| {
        if let Symbol::Variable(var) = symbol {
            assert_eq!(var.name(), "test_var");
            assert_eq!(var.ctype().get_display_name(), "const char *");
        }
        Some(fragment("generate_var_gen called"))
    });

    assert_generator_called(&units, "generate_var_gen called");
}

#[test]
fn test_include_flag() {
    let mut generator = Generator::new();
    generator.include_directory("include_test/includes");
    assert_eq!(generator.arguments().len(), 1);
    assert_eq!(generator.arguments()[0], "-Iinclude_test/includes");

    let files = vec![file(
        "include_test/include_test.c",
        vec![fn_decl("include_test_fn", "void *(int)", "void *", vec![param("test_param", "int")])],
    )];
    let units = generator.generate(&files, &|symbol: Symbol| {
        if let Symbol::Function(signature) = symbol {
            assert_eq!(signature.name(), "include_test_fn");
            assert_eq!(signature.ctype().get_display_name(), "void *(int)");
            assert_eq!(signature.result_type().get_display_name(), "void *");
            assert_eq!(signature.parameters().len(), 1);
            assert_eq!(signature.parameters()[0].name(), "test_param");
            assert_eq!(signature.parameters()[0].ctype().get_display_name(), "int");
        }
        Some(fragment("include_gen called"))
    });

    assert_generator_called(&units, "include_gen called");
}

#[test]
fn test_define_flag() {
    let mut generator = Generator::new();
    generator.define("TEST_MACRO");
    assert_eq!(generator.arguments().len(), 1);
    assert_eq!(generator.arguments()[0], "-DTEST_MACRO");

    let files = vec![file(
        "define_test/define_test.c",
        vec![fn_decl(
            "define_test_fn",
            "int (const char *)",
            "int",
            vec![param("test_param", "const char *")],
        )],
    )];
    let units = generator.generate(&files, &|symbol: Symbol| {
        if let Symbol::Function(signature) = symbol {
            assert_eq!(signature.name(), "define_test_fn");
            assert_eq!(signature.ctype().get_display_name(), "int (const char *)");
            assert_eq!(signature.result_type().get_display_name(), "int");
        }
        Some(fragment("define_gen called"))
    });

    assert_generator_called(&units, "define_gen called");
}

#[test]
fn test_define_value_flag() {
    let mut generator = Generator::new();
    generator.define_value("RETURN_T", "double").define_value("STRING_T", "const char *");
    assert_eq!(generator.arguments().len(), 2);
    assert_eq!(generator.arguments()[0], "-DRETURN_T=double");
    assert_eq!(generator.arguments()[1], "-DSTRING_T=const char *");

    let files = vec![file(
        "define_value_test/define_value_test.c",
        vec![fn_decl(
            "define_value_test_fn",
            "double (const char *)",
            "double",
            vec![param("test_param", "const char *")],
        )],
    )];
    let units = generator.generate(&files, &|symbol: Symbol| {
        if let Symbol::Function(signature) = symbol {
            assert_eq!(signature.name(), "define_value_test_fn");
            assert_eq!(signature.ctype().get_display_name(), "double (const char *)");
            assert_eq!(signature.result_type().get_display_name(), "double");
        }
        Some(fragment("define_value_gen called"))
    });

    assert_generator_called(&units, "define_value_gen called");
}

#[test]
fn test_hidden() {
    let hidden = Decl {
        kind: NodeKind::Function,
        name: Some("hidden_fn".to_string()),
        ctype: Some(fn_ct("void ()", "void")),
        visibility: Some(Visibility::Hidden),
        children: vec![],
    };
    let no_visibility = Decl {
        kind: NodeKind::Variable,
        name: Some("local_var".to_string()),
        ctype: Some(ct("int")),
        visibility: None,
        children: vec![],
    };
    let files = vec![
        file("hidden/one.c", vec![hidden]),
        file("hidden/two.c", vec![no_visibility]),
    ];

    let units = Generator::new().generate(&files, &|_symbol: Symbol| -> Option<TokenStream> {
        panic!("This must never be called");
    });

    assert_eq!(units.len(), 2);
    assert!(units[0].tokens().to_string().is_empty());
    assert!(units[1].tokens().to_string().is_empty());
}

#[test]
fn forward_then_definition_in_one_file() {
    let files = vec![file(
        "root/a.c",
        vec![
            struct_decl("S", vec![]),
            struct_decl("S", vec![field("x", "int")]),
        ],
    )];

    let calls = Cell::new(0usize);
    let units = Generator::new().generate(&files, &|symbol: Symbol| {
        let decl = match symbol {
            Symbol::Struct(decl) => decl,
            _ => panic!("only the struct may be surfaced"),
        };
        assert_eq!(decl.name(), "S");
        calls.set(calls.get() + 1);
        if decl.fields().is_empty() {
            assert_eq!(calls.get(), 1, "the forward declaration must come first");
            Some(fragment("fwd"))
        } else {
            assert_eq!(calls.get(), 2, "the definition must come second");
            assert_eq!(decl.fields()[0].name(), "x");
            assert_eq!(decl.fields()[0].ctype().get_display_name(), "int");
            Some(fragment("def"))
        }
    });

    assert_eq!(calls.get(), 2);
    assert_eq!(units.len(), 1);
    assert_eq!(units[0].name(), "a.c");
    assert_eq!(units[0].tokens().to_string(), "fwd def");
}

#[test]
fn definition_then_forward_fires_once() {
    let files = vec![file(
        "root/s.c",
        vec![
            struct_decl("S", vec![field("x", "int")]),
            struct_decl("S", vec![]),
        ],
    )];

    let calls = Cell::new(0usize);
    let units = Generator::new().generate(&files, &|symbol: Symbol| {
        if let Symbol::Struct(decl) = symbol {
            calls.set(calls.get() + 1);
            assert!(!decl.fields().is_empty(), "the repeated forward declaration must be suppressed");
        }
        Some(fragment("def"))
    });

    assert_eq!(calls.get(), 1);
    assert_eq!(units[0].tokens().to_string(), "def");
}

#[test]
fn two_forward_declarations_both_fire() {
    let files = vec![file(
        "root/s.c",
        vec![struct_decl("S", vec![]), struct_decl("S", vec![])],
    )];

    let calls = Cell::new(0usize);
    Generator::new().generate(&files, &|symbol: Symbol| {
        if let Symbol::Struct(decl) = symbol {
            calls.set(calls.get() + 1);
            assert!(decl.fields().is_empty());
        }
        None
    });

    assert_eq!(calls.get(), 2);
}

#[test]
fn function_in_two_files_fires_once() {
    let foo = || fn_decl("foo", "void (int)", "void", vec![param("", "int")]);
    let files = vec![file("root/a.c", vec![foo()]), file("root/b.c", vec![foo()])];

    let calls = Cell::new(0usize);
    let units = Generator::new().generate(&files, &|symbol: Symbol| {
        if let Symbol::Function(signature) = symbol {
            assert_eq!(signature.name(), "foo");
            calls.set(calls.get() + 1);
        }
        Some(fragment("foo_gen called"))
    });

    assert_eq!(calls.get(), 1, "an exported name declared in two files fires once");
    assert_eq!(units.len(), 2);
    assert!(!units[0].tokens().to_string().is_empty(), "the first file visited wins");
    assert!(units[1].tokens().to_string().is_empty());
}

#[test]
fn unexported_name_does_not_block_a_later_export() {
    let mut hidden = fn_decl("late", "void ()", "void", vec![]);
    hidden.visibility = Some(Visibility::Hidden);
    let exported = fn_decl("late", "void ()", "void", vec![]);
    let files = vec![file("root/a.c", vec![hidden]), file("root/b.c", vec![exported])];

    let calls = Cell::new(0usize);
    let units = Generator::new().generate(&files, &|symbol: Symbol| {
        if let Symbol::Function(signature) = symbol {
            assert_eq!(signature.name(), "late");
            calls.set(calls.get() + 1);
        }
        Some(fragment("late_gen called"))
    });

    assert_eq!(calls.get(), 1);
    assert!(units[0].tokens().to_string().is_empty());
    assert!(!units[1].tokens().to_string().is_empty());
}

#[test]
fn only_recognized_extensions_produce_units() {
    let files = vec![
        file("root/sub/a.c", vec![var_decl("a_var", "int")]),
        file("root/readme.txt", vec![]),
        file("root/header.h", vec![var_decl("ignored", "int")]),
        file("root/sub/deeper/b.c", vec![]),
    ];

    let units = Generator::new().generate(&files, &|_symbol: Symbol| None);

    assert_eq!(units.len(), 2);
    assert_eq!(units[0].name(), "a.c");
    assert_eq!(units[1].name(), "b.c");
}

#[test]
fn dll_export_policy_reads_the_attribute() {
    let marked = Decl {
        kind: NodeKind::Function,
        name: Some("exported_fn".to_string()),
        ctype: Some(fn_ct("void ()", "void")),
        visibility: None,
        children: vec![Child { kind: NodeKind::DllExport, name: None, ctype: None }],
    };
    let unmarked = fn_decl("plain_fn", "void ()", "void", vec![]);
    let files = vec![file("root/win.c", vec![marked, unmarked])];

    let mut generator = Generator::new();
    generator.export_policy(ExportPolicy::DllExportAttribute);
    assert_eq!(generator.policy(), ExportPolicy::DllExportAttribute);

    let calls = Cell::new(0usize);
    generator.generate(&files, &|symbol: Symbol| {
        if let Symbol::Function(signature) = symbol {
            assert_eq!(signature.name(), "exported_fn");
            calls.set(calls.get() + 1);
        }
        None
    });

    assert_eq!(calls.get(), 1, "only the attribute-marked function is exported");
}

#[test]
fn variable_name_blocks_function_with_same_name() {
    let files = vec![file(
        "root/a.c",
        vec![var_decl("shared", "int"), fn_decl("shared", "void ()", "void", vec![])],
    )];

    let calls = Cell::new(0usize);
    Generator::new().generate(&files, &|symbol: Symbol| {
        match symbol {
            Symbol::Variable(_) => calls.set(calls.get() + 1),
            _ => panic!("functions and variables share one name set"),
        }
        None
    });

    assert_eq!(calls.get(), 1);
}
