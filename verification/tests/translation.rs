use ctest_next::ast::{Abi, BinOp, Expr, Ty};
use ctest_next::translator::{translate_abi, translate_expr, TranslationError, Translator};

fn path(ident: &str) -> Ty {
    Ty::Path { ident: ident.to_string(), argument: None }
}

fn option(inner: Ty) -> Ty {
    Ty::Path { ident: "Option".to_string(), argument: Some(Box::new(inner)) }
}

fn ptr(mutable: bool, elem: Ty) -> Ty {
    Ty::Ptr { mutable, elem: Box::new(elem) }
}

fn reference(mutable: bool, elem: Ty) -> Ty {
    Ty::Reference { mutable, elem: Box::new(elem) }
}

fn array(elem: Ty, len: Expr) -> Ty {
    Ty::Array { elem: Box::new(elem), len }
}

fn lit(text: &str) -> Expr {
    Expr::Int { text: text.to_string() }
}

fn binary(left: Expr, op: BinOp, right: Expr) -> Expr {
    Expr::Binary { left: Box::new(left), op, right: Box::new(right) }
}

fn bare_fn(inputs: Vec<Ty>, output: Option<Ty>) -> Ty {
    Ty::BareFn { abi: None, lifetimes: false, inputs, variadic: false, output: output.map(Box::new) }
}

#[test]
fn test_translation_type_path() {
    let translator = Translator::default();
    // std::option::Option<u8>
    let ty = option(path("u8"));

    assert_eq!(translator.translate_type(&ty).unwrap(), "uint8_t", "std::option::Option<u8>");
}

#[test]
fn test_translation_type_ptr() {
    let translator = Translator::default();
    // *const *mut i32
    let ty = ptr(false, ptr(true, path("i32")));

    assert_eq!(translator.translate_type(&ty).unwrap(), " int32_t* const*", "*const *mut i32");
}

#[test]
fn test_translation_type_reference() {
    let translator = Translator::default();
    // &u8
    let ty = reference(false, path("u8"));
    assert_eq!(translator.translate_type(&ty).unwrap(), "const uint8_t*", "&u8");

    // &mut u8
    let ty = reference(true, path("u8"));
    assert_eq!(translator.translate_type(&ty).unwrap(), "uint8_t*", "&mut u8");
}

#[test]
fn test_translation_type_bare_fn() {
    let translator = Translator::default();
    // fn(*mut u8, i16) -> &str
    let ty = bare_fn(vec![ptr(true, path("u8")), path("i16")], Some(reference(false, path("str"))));

    assert_eq!(
        translator.translate_type(&ty).unwrap(),
        "char*(*)( uint8_t*, int16_t)",
        "fn(*mut u8, i16) -> &str"
    );
}

#[test]
fn test_translation_type_array() {
    let translator = Translator::default();
    // [&u8; 2 + 2]
    let ty = array(reference(false, path("u8")), binary(lit("2"), BinOp::Add, lit("2")));
    assert_eq!(translator.translate_type(&ty).unwrap(), "const uint8_t*[2 + 2]", "[&u8; 2 + 2]");

    // [&mut u8; 2 + 2]
    let ty = array(reference(true, path("u8")), binary(lit("2"), BinOp::Add, lit("2")));
    assert_eq!(translator.translate_type(&ty).unwrap(), "uint8_t*[2 + 2]", "[&mut u8; 2 + 2]");
}

#[test]
fn array_length_is_not_evaluated() {
    let len = binary(lit("2"), BinOp::Add, lit("2"));
    assert_eq!(translate_expr(&len).unwrap(), "2 + 2");

    let len = binary(
        Expr::Path { ident: "LEN".to_string() },
        BinOp::Sub,
        Expr::Cast { expr: Box::new(lit("1")) },
    );
    assert_eq!(translate_expr(&len).unwrap(), "LEN - 1");
}

#[test]
fn array_length_errors() {
    assert_eq!(translate_expr(&Expr::OtherLit), Err(TranslationError::NonIntegerLiteral));
    assert_eq!(translate_expr(&Expr::Other), Err(TranslationError::UnsupportedExpr));
    let product = binary(lit("2"), BinOp::Other, lit("3"));
    assert_eq!(translate_expr(&product), Err(TranslationError::UnknownOperator));
    // The operands are looked at before the operator.
    let product = binary(Expr::Other, BinOp::Other, Expr::OtherLit);
    assert_eq!(translate_expr(&product), Err(TranslationError::UnsupportedExpr));
}

#[test]
fn translation_is_repeatable() {
    let translator = Translator::new();
    let first = ptr(false, array(path("c_uint"), lit("4")));
    let second = ptr(false, array(path("c_uint"), lit("4")));
    assert_eq!(translator.translate_type(&first), translator.translate_type(&second));
    assert_eq!(translator.translate_type(&first), translator.translate_type(&first));
}

#[test]
fn primitive_table() {
    let translator = Translator::new();
    let table = [
        ("usize", "size_t"),
        ("isize", "ssize_t"),
        ("u8", "uint8_t"),
        ("u16", "uint16_t"),
        ("u32", "uint32_t"),
        ("u64", "uint64_t"),
        ("i8", "int8_t"),
        ("i16", "int16_t"),
        ("i32", "int32_t"),
        ("i64", "int64_t"),
        ("f32", "float"),
        ("f64", "double"),
        ("()", "void"),
        ("c_longdouble", "long double"),
        ("c_long_double", "long double"),
        ("c_short", "short"),
        ("c_int", "int"),
        ("c_uint", "unsigned int"),
        ("c_char", "char"),
        ("c_schar", "signed char"),
        ("c_uchar", "unsigned char"),
        ("c_long", " long"),
        ("c_ulong", "unsigned  long"),
        ("c_longlong", " long long"),
        ("c_ulonglong", "unsigned  long long"),
        ("c_void", "void"),
        ("timeval", "timeval"),
    ];
    for (rust, c) in table {
        assert_eq!(translator.translate_primitive_type(rust), c, "{}", rust);
    }
}

#[test]
fn primitive_names() {
    let translator = Translator::new();
    for name in ["usize", "u8", "u16", "u32", "u64", "isize", "i8", "i16", "i32", "i64", "f32", "f64"] {
        assert!(translator.is_rust_primitive(name), "{}", name);
    }
    assert!(translator.is_rust_primitive("c_int"));
    assert!(translator.is_rust_primitive("c_"));
    assert!(!translator.is_rust_primitive("c"));
    assert!(!translator.is_rust_primitive("str"));
    assert!(!translator.is_rust_primitive("u128"));
    assert!(!translator.is_rust_primitive(""));
}

#[test]
fn unit_and_never_are_void() {
    let translator = Translator::new();
    assert_eq!(translator.translate_type(&Ty::Unit).unwrap(), "void");
    assert_eq!(translator.translate_type(&Ty::Never).unwrap(), "void");
}

#[test]
fn pointers() {
    let translator = Translator::new();
    assert_eq!(translator.translate_type(&ptr(false, path("u8"))).unwrap(), "const uint8_t*");
    assert_eq!(translator.translate_type(&ptr(true, path("u8"))).unwrap(), " uint8_t*");
    assert_eq!(
        translator.translate_type(&ptr(true, ptr(false, ptr(true, path("c_char"))))).unwrap(),
        " char* const* *"
    );
    // A pointer to an array keeps the array's own length and adds it once more.
    assert_eq!(
        translator.translate_type(&ptr(false, array(path("u8"), lit("4")))).unwrap(),
        "const uint8_t[4] [4]"
    );
    // A pointer to a function pointer is the function pointer.
    assert_eq!(
        translator.translate_type(&ptr(true, bare_fn(vec![], None))).unwrap(),
        "void(*)(void)"
    );
}

#[test]
fn references() {
    let translator = Translator::new();
    assert_eq!(translator.translate_type(&reference(false, path("str"))).unwrap(), "char*");
    assert_eq!(
        translator.translate_type(&reference(true, path("str"))),
        Err(TranslationError::MutableStr)
    );
    assert_eq!(
        translator.translate_type(&reference(false, path("timeval"))),
        Err(TranslationError::NonPrimitiveReference)
    );
    assert_eq!(
        translator.translate_type(&reference(false, ptr(true, path("u8")))),
        Err(TranslationError::UnknownReference)
    );
    assert_eq!(
        translator.translate_type(&reference(false, array(path("i16"), lit("3")))).unwrap(),
        "const int16_t*"
    );
    assert_eq!(
        translator.translate_type(&reference(true, array(path("i16"), lit("3")))).unwrap(),
        "int16_t*"
    );
}

#[test]
fn function_pointers() {
    let translator = Translator::new();
    assert_eq!(translator.translate_type(&bare_fn(vec![], None)).unwrap(), "void(*)(void)");
    assert_eq!(
        translator.translate_type(&bare_fn(vec![path("u8")], Some(path("i32")))).unwrap(),
        "int32_t(*)(uint8_t)"
    );
    // A function pointer that returns a function pointer.
    let inner = bare_fn(vec![path("u8")], Some(path("u16")));
    let outer = bare_fn(vec![path("i8")], Some(inner));
    assert_eq!(translator.translate_type(&outer).unwrap(), "uint16_t(*(*)(int8_t))(uint8_t)");

    let variadic = Ty::BareFn {
        abi: Some(Abi::C),
        lifetimes: false,
        inputs: vec![ptr(false, path("c_char"))],
        variadic: true,
        output: Some(Box::new(path("c_int"))),
    };
    assert_eq!(translator.translate_type(&variadic).unwrap(), "int(*)(const char*, ...)");

    let lifetimes = Ty::BareFn {
        abi: None,
        lifetimes: true,
        inputs: vec![],
        variadic: false,
        output: None,
    };
    assert_eq!(translator.translate_type(&lifetimes), Err(TranslationError::Lifetimes));

    // The first parameter that has no translation decides the error.
    let bad = bare_fn(vec![path("u8"), Ty::Other, reference(true, path("str"))], Some(Ty::Other));
    assert_eq!(translator.translate_type(&bad), Err(TranslationError::UnsupportedType));
    let bad = bare_fn(vec![reference(true, path("str")), Ty::Other], None);
    assert_eq!(translator.translate_type(&bad), Err(TranslationError::MutableStr));
}

#[test]
fn calling_conventions() {
    let stdcall = Abi::Other("stdcall".to_string());
    let system = Abi::Other("system".to_string());
    assert_eq!(translate_abi(&Abi::C, None).unwrap(), "");
    assert_eq!(translate_abi(&stdcall, None).unwrap(), "__stdcall ");
    assert_eq!(translate_abi(&system, Some("i686-pc-windows-msvc")).unwrap(), "__stdcall ");
    assert_eq!(translate_abi(&system, Some("x86_64-unknown-linux-gnu")).unwrap(), "");
    assert_eq!(translate_abi(&system, None).unwrap(), "");
    assert_eq!(translate_abi(&Abi::Rust, None), Err(TranslationError::UnknownAbi));
    assert_eq!(
        translate_abi(&Abi::Other("fastcall".to_string()), None),
        Err(TranslationError::UnknownAbi)
    );

    let windows = Translator::for_target("i686-pc-windows-gnu");
    let callback = Ty::BareFn {
        abi: Some(Abi::Other("system".to_string())),
        lifetimes: false,
        inputs: vec![],
        variadic: false,
        output: None,
    };
    assert_eq!(windows.translate_type(&callback).unwrap(), "void(__stdcall *)(void)");
    assert_eq!(Translator::new().translate_type(&callback).unwrap(), "void(*)(void)");
}

#[test]
fn abi_from_name() {
    assert!(matches!(Abi::from_name("C"), Abi::C));
    assert!(matches!(Abi::from_name("Rust"), Abi::Rust));
    assert!(matches!(Abi::from_name("system"), Abi::Other(name) if name == "system"));
}

#[test]
fn option_is_looked_through() {
    let translator = Translator::new();
    assert_eq!(
        translator.translate_type(&option(bare_fn(vec![], None))).unwrap(),
        "void(*)(void)"
    );
    assert_eq!(
        translator.translate_type(&path("Option")),
        Err(TranslationError::MissingArgument)
    );
    assert_eq!(translator.translate_type(&Ty::Other), Err(TranslationError::UnsupportedType));
}

#[test]
fn signature_parts() {
    let translator = Translator::new();
    let function = bare_fn(vec![path("u8"), ptr(false, path("u16"))], None);
    let (ret, params, variadic) = translator.translate_signature_partial(&function).unwrap();
    assert_eq!(ret, "void");
    assert_eq!(params, ["uint8_t", "const uint16_t*"]);
    assert!(!variadic);
    assert_eq!(
        translator.translate_signature_partial(&path("u8")),
        Err(TranslationError::UnsupportedType)
    );
}

#[test]
fn declared_structs_and_unions_keep_their_names() {
    let translator = Translator::for_declarations(
        None,
        vec!["c_foo".to_string(), "timeval".to_string(), "u8".to_string()],
        vec!["c_bar".to_string()],
    );
    assert_eq!(translator.translate_type(&path("c_foo")).unwrap(), "c_foo");
    assert_eq!(translator.translate_type(&path("c_bar")).unwrap(), "c_bar");
    assert_eq!(translator.translate_type(&path("timeval")).unwrap(), "timeval");
    assert_eq!(translator.translate_type(&path("u8")).unwrap(), "u8");
    assert_eq!(translator.translate_type(&path("c_int")).unwrap(), "int");
    assert_eq!(translator.translate_type(&path("u16")).unwrap(), "uint16_t");
    assert_eq!(translator.translate_type(&ptr(true, path("c_foo"))).unwrap(), " c_foo*");
    assert_eq!(translator.translate_type(&array(path("c_bar"), lit("2"))).unwrap(), "c_bar[2]");
    assert_eq!(translator.translate_type(&option(path("c_foo"))).unwrap(), "c_foo");
    assert_eq!(translator.translate_named_type("c_foo"), "c_foo");
    assert_eq!(translator.translate_named_type("c_uint"), "unsigned int");
    // The table itself does not change.
    assert_eq!(translator.translate_primitive_type("c_foo"), "foo");

    // A translator that knows no declaration asks the table.
    assert_eq!(Translator::new().translate_type(&path("c_foo")).unwrap(), "foo");
    assert_eq!(Translator::new().translate_named_type("c_foo"), "foo");
}

#[test]
fn references_to_declared_structs() {
    let translator = Translator::for_declarations(
        Some("x86_64-unknown-linux-gnu"),
        vec!["c_foo".to_string(), "timeval".to_string()],
        vec!["c_bar".to_string(), "Word".to_string()],
    );
    assert_eq!(translator.translate_type(&reference(false, path("timeval"))).unwrap(), "const timeval*");
    assert_eq!(translator.translate_type(&reference(true, path("timeval"))).unwrap(), "timeval*");
    assert_eq!(translator.translate_type(&reference(false, path("c_foo"))).unwrap(), "const c_foo*");
    assert_eq!(
        translator.translate_type(&reference(false, path("Word"))),
        Err(TranslationError::NonPrimitiveReference)
    );
    assert_eq!(
        translator.translate_type(&reference(false, path("c_bar"))),
        Err(TranslationError::NonPrimitiveReference)
    );
    assert_eq!(
        translator.translate_type(&reference(false, path("other"))),
        Err(TranslationError::NonPrimitiveReference)
    );
    assert_eq!(translator.translate_type(&reference(false, path("c_int"))).unwrap(), "const int*");
    assert_eq!(translator.translate_type(&reference(false, path("str"))).unwrap(), "char*");
}

#[test]
fn translation_does_not_depend_on_the_translator() {
    let types = [
        path("u8"),
        ptr(false, ptr(true, path("i32"))),
        reference(false, path("u8")),
        array(reference(true, path("f64")), binary(lit("2"), BinOp::Add, lit("2"))),
        bare_fn(vec![ptr(true, path("u8")), path("i16")], Some(reference(false, path("str")))),
        option(path("usize")),
        Ty::Unit,
        Ty::Never,
        Ty::Other,
    ];
    let translators = [
        Translator::new(),
        Translator::default(),
        Translator::for_target("i686-pc-windows-msvc"),
        Translator::for_declarations(Some("x"), vec!["S".to_string()], vec!["U".to_string()]),
    ];
    for ty in &types {
        for translator in &translators {
            assert_eq!(translator.translate_type(ty), translators[0].translate_type(ty));
        }
    }
}
