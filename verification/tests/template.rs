use ctest_next::ast::{Abi, Const, Expr, Field, Fn, Static, Struct, Ty, Type, Union};
use ctest_next::ffi_items::FfiItems;
use ctest_next::generator::TestGenerator;
use ctest_next::rules::{MapInput, TyKind};
use ctest_next::template::{
    should_roundtrip, should_skip_field, should_skip_field_type, should_test_fn_ptr,
    should_test_sign, CTestTemplate, RustTestTemplate,
};
use ctest_next::translator::TranslationError;
use ctest_next::VolatileItemKind;

fn path(ident: &str) -> Ty {
    Ty::Path { ident: ident.to_string(), argument: None }
}

fn ptr(mutable: bool, elem: Ty) -> Ty {
    Ty::Ptr { mutable, elem: Box::new(elem) }
}

fn array(elem: Ty, len: &str) -> Ty {
    Ty::Array { elem: Box::new(elem), len: Expr::Int { text: len.to_string() } }
}

fn field(public: bool, ident: &str, ty: Ty) -> Field {
    Field { public, ident: ident.to_string(), ty }
}

fn items() -> FfiItems {
    let mut items = FfiItems::new();
    items.structs.push(Struct {
        public: true,
        ident: "timeval".to_string(),
        fields: vec![field(true, "tv_sec", path("i64")), field(false, "tv_usec", path("i64"))],
    });
    items.unions.push(Union { public: true, ident: "Word".to_string(), fields: vec![] });
    items
}

#[test]
fn c_ident_is_the_mapped_name() {
    let items = items();
    let mut generator = TestGenerator::new();
    generator.rename_fn(|f| Some(format!("{}_c", f.ident())));
    let template = CTestTemplate::new(&items, &generator);
    let function = Fn {
        public: true,
        abi: Abi::C,
        ident: "open".to_string(),
        link_name: None,
        parameters: vec![],
        return_type: None,
    };
    assert_eq!(template.c_ident(MapInput::Fn(&function)), "open_c");
    assert_eq!(template.c_ident(MapInput::Struct(&items.structs[0])), "timeval");
}

#[test]
fn c_type_of_items() {
    let items = items();
    let generator = TestGenerator::new();
    let template = CTestTemplate::new(&items, &generator);

    let constant = Const { public: true, ident: "A".to_string(), ty: path("u32") };
    assert_eq!(template.c_type(MapInput::Const(&constant)).unwrap(), "uint32_t");
    let tv = Const { public: true, ident: "ZERO".to_string(), ty: path("timeval") };
    assert_eq!(template.c_type(MapInput::Const(&tv)).unwrap(), "struct timeval");
    let word = Static {
        public: true,
        abi: Abi::C,
        ident: "w".to_string(),
        link_name: None,
        ty: path("Word"),
    };
    assert_eq!(template.c_type(MapInput::Static(&word)).unwrap(), "union Word");
    let s = &items.structs[0];
    assert_eq!(template.c_type(MapInput::Field(s, &s.fields[0])).unwrap(), "int64_t");
    assert_eq!(template.c_type(MapInput::FieldType(s, &s.fields[0])).unwrap(), "int64_t");
    assert_eq!(template.c_type(MapInput::Struct(s)).unwrap(), "struct timeval");
    let alias = Type { public: true, ident: "c_uint".to_string(), ty: path("u32") };
    assert_eq!(template.c_type(MapInput::Alias(&alias)).unwrap(), "unsigned int");
    let alias = Type { public: true, ident: "pid_t".to_string(), ty: path("i32") };
    assert_eq!(template.c_type(MapInput::Alias(&alias)).unwrap(), "pid_t");

    let function = Fn {
        public: true,
        abi: Abi::C,
        ident: "f".to_string(),
        link_name: None,
        parameters: vec![],
        return_type: None,
    };
    assert_eq!(template.c_type(MapInput::Fn(&function)), Err(TranslationError::UnsupportedItem));
    assert_eq!(
        template.c_type(MapInput::Type("u8", TyKind::Other)),
        Err(TranslationError::UnsupportedItem)
    );
    let bad = Const { public: true, ident: "B".to_string(), ty: Ty::Other };
    assert_eq!(template.c_type(MapInput::Const(&bad)), Err(TranslationError::UnsupportedType));
}

#[test]
fn c_type_goes_through_the_rename_rules() {
    let items = items();
    let mut generator = TestGenerator::new();
    generator.rename_type(|ty, kind| match (ty, kind) {
        ("timeval", _) => Some(ty.to_string()),
        (t, TyKind::Union) => Some(format!("union {}_u", t)),
        _ => None,
    });
    let template = CTestTemplate::new(&items, &generator);
    let tv = Const { public: true, ident: "ZERO".to_string(), ty: path("timeval") };
    assert_eq!(template.c_type(MapInput::Const(&tv)).unwrap(), "timeval");
    let word = Const { public: true, ident: "W".to_string(), ty: path("Word") };
    assert_eq!(template.c_type(MapInput::Const(&word)).unwrap(), "union Word_u");
    assert_eq!(template.get_mapped_type(&ptr(true, path("Word"))).unwrap(), "union  Word*_u");
}

#[test]
fn mapped_types() {
    let items = items();
    let generator = TestGenerator::new();
    let template = CTestTemplate::new(&items, &generator);
    assert_eq!(template.get_mapped_type(&path("u8")).unwrap(), "uint8_t");
    assert_eq!(template.get_mapped_type(&path("timeval")).unwrap(), "struct timeval");
    assert_eq!(template.get_mapped_type(&path("Word")).unwrap(), "union Word");
    // A pointer to a struct is looked up under the struct's name.
    assert_eq!(template.get_mapped_type(&ptr(false, path("timeval"))).unwrap(), "struct const timeval*");
    assert_eq!(template.get_mapped_type(&ptr(true, ptr(true, path("timeval")))).unwrap(), " timeval* *");
    assert_eq!(template.get_mapped_type(&Ty::Other), Err(TranslationError::UnsupportedType));
}

#[test]
fn signatures() {
    let items = items();
    let generator = TestGenerator::new();
    let template = CTestTemplate::new(&items, &generator);
    assert_eq!(template.c_signature(&path("u8"), "f(void)").unwrap(), "uint8_t* f(void)");
    assert_eq!(
        template.c_signature(&path("timeval"), "f(void)").unwrap(),
        "struct timeval* f(void)"
    );
    assert_eq!(
        template.c_signature(&ptr(true, path("u8")), "name(int a)").unwrap(),
        " uint8_t** name(int a)"
    );
    assert_eq!(
        template.c_signature(&array(path("i32"), "4"), "f(void)").unwrap(),
        "int32_t(*f(void))[4]"
    );
    assert_eq!(
        template.c_signature(&array(array(path("i32"), "3"), "2"), "f(void)").unwrap(),
        "int32_t(*f(void))[2][3]"
    );
    let callback = Ty::BareFn {
        abi: Some(Abi::C),
        lifetimes: false,
        inputs: vec![path("u8"), path("u16")],
        variadic: false,
        output: Some(Box::new(path("i32"))),
    };
    assert_eq!(
        template.c_signature(&callback, "f(void)").unwrap(),
        "int32_t(**f(void))(uint8_t, uint16_t)"
    );
    let option = Ty::Path { ident: "Option".to_string(), argument: Some(Box::new(callback)) };
    assert_eq!(
        template.c_signature(&option, "f(void)").unwrap(),
        "int32_t(**f(void))(uint8_t, uint16_t)"
    );
    let plain = Ty::BareFn {
        abi: None,
        lifetimes: false,
        inputs: vec![],
        variadic: false,
        output: None,
    };
    assert_eq!(template.c_signature(&plain, "g(void)").unwrap(), "void(**g(void))(void)");
    let variadic = Ty::BareFn {
        abi: Some(Abi::Other("stdcall".to_string())),
        lifetimes: false,
        inputs: vec![],
        variadic: true,
        output: None,
    };
    assert_eq!(template.c_signature(&variadic, "g(void)").unwrap(), "void(__stdcall **g(void))(...)");
    assert_eq!(
        template.c_signature(&path("Option"), "f(void)"),
        Err(TranslationError::MissingArgument)
    );
    let bad_len = Ty::Array { elem: Box::new(path("u8")), len: Expr::Other };
    assert_eq!(
        template.c_signature(&bad_len, "f(void)"),
        Err(TranslationError::UnsupportedExpr)
    );
    let unknown = Ty::BareFn {
        abi: Some(Abi::Rust),
        lifetimes: false,
        inputs: vec![],
        variadic: false,
        output: None,
    };
    assert_eq!(template.c_signature(&unknown, "f(void)"), Err(TranslationError::UnknownAbi));
}

#[test]
fn signature_on_windows() {
    let items = items();
    let mut generator = TestGenerator::new();
    generator.target("i686-pc-windows-msvc");
    let template = CTestTemplate::new(&items, &generator);
    let system = Ty::BareFn {
        abi: Some(Abi::Other("system".to_string())),
        lifetimes: false,
        inputs: vec![path("u8")],
        variadic: false,
        output: None,
    };
    assert_eq!(template.c_signature(&system, "f(void)").unwrap(), "void(__stdcall **f(void))(uint8_t)");
    let rust = RustTestTemplate::new(&items, &generator);
    assert_eq!(rust.translator.translate_type(&system).unwrap(), "void(__stdcall *)(uint8_t)");
}

#[test]
fn volatile_keyword() {
    let items = items();
    let mut generator = TestGenerator::new();
    generator.volatile_item(|item| matches!(item, VolatileItemKind::Static(s) if s.ident() == "vol_ptr"));
    let template = CTestTemplate::new(&items, &generator);
    let global = |ident: &str| Static {
        public: true,
        abi: Abi::C,
        ident: ident.to_string(),
        link_name: None,
        ty: path("u8"),
    };
    assert_eq!(template.emit_volatile(VolatileItemKind::Static(&global("vol_ptr"))), "volatile ");
    assert_eq!(template.emit_volatile(VolatileItemKind::Static(&global("other"))), "");
}

#[test]
fn which_tests_an_item_gets() {
    let mut generator = TestGenerator::new();
    assert!(should_roundtrip(&generator, "Arr"));
    assert!(should_test_sign(&generator, "Arr"));
    assert!(should_test_fn_ptr(&generator, "Arr"));
    generator
        .skip_roundtrip(|n| n == "Arr")
        .skip_signededness(|n| n == "Sign")
        .skip_fn_ptr_check(|n| n == "Ptr");
    assert!(!should_roundtrip(&generator, "Arr"));
    assert!(should_roundtrip(&generator, "Sign"));
    assert!(!should_test_sign(&generator, "Sign"));
    assert!(should_test_sign(&generator, "Arr"));
    assert!(!should_test_fn_ptr(&generator, "Ptr"));
    assert!(should_test_fn_ptr(&generator, "Arr"));
    // A rule that is set again takes the place of the first.
    generator.skip_roundtrip(|n| n == "Other");
    assert!(should_roundtrip(&generator, "Arr"));
    assert!(!should_roundtrip(&generator, "Other"));
}

#[test]
fn which_fields_are_tested() {
    let items = items();
    let s = &items.structs[0];
    let mut generator = TestGenerator::new();
    assert!(!should_skip_field(&generator, s, &s.fields[0]));
    // A field that is not public is never tested.
    assert!(should_skip_field(&generator, s, &s.fields[1]));
    assert!(should_skip_field_type(&generator, s, &s.fields[1]));
    generator.skip_field(|_, f| f.ident() == "tv_sec");
    assert!(should_skip_field(&generator, s, &s.fields[0]));
    assert!(!should_skip_field_type(&generator, s, &s.fields[0]));
    generator.skip_field_type(|_, f| f.ident() == "tv_sec");
    assert!(should_skip_field_type(&generator, s, &s.fields[0]));
}

fn named_items() -> FfiItems {
    let mut items = FfiItems::new();
    items.structs.push(Struct {
        public: true,
        ident: "c_foo".to_string(),
        fields: vec![field(true, "inner", path("c_bar")), field(true, "next", ptr(true, path("c_foo")))],
    });
    items.unions.push(Union { public: true, ident: "c_bar".to_string(), fields: vec![] });
    items
}

#[test]
fn a_struct_named_like_a_primitive_keeps_its_name() {
    let items = named_items();
    let generator = TestGenerator::new();
    let template = CTestTemplate::new(&items, &generator);
    let s = &items.structs[0];

    assert_eq!(template.c_type(MapInput::Struct(s)).unwrap(), "struct c_foo");
    let constant = Const { public: true, ident: "ZERO".to_string(), ty: path("c_foo") };
    assert_eq!(template.c_type(MapInput::Const(&constant)).unwrap(), "struct c_foo");
    let word = Const { public: true, ident: "W".to_string(), ty: path("c_bar") };
    assert_eq!(template.c_type(MapInput::Const(&word)).unwrap(), "union c_bar");
    // The two ways to the type of a field agree.
    assert_eq!(template.c_type(MapInput::Field(s, &s.fields[0])).unwrap(), "union c_bar");
    assert_eq!(template.get_mapped_type(&s.fields[0].ty).unwrap(), "union c_bar");
    assert_eq!(template.get_mapped_type(&path("c_foo")).unwrap(), "struct c_foo");
    assert_eq!(template.get_mapped_type(&s.fields[1].ty).unwrap(), "struct  c_foo*");
    assert_eq!(template.c_signature(&path("c_foo"), "f(void)").unwrap(), "struct c_foo* f(void)");

    // Nothing named `foo` is declared, and a name that is not declared goes by the table.
    let plain = Const { public: true, ident: "P".to_string(), ty: path("c_int") };
    assert_eq!(template.c_type(MapInput::Const(&plain)).unwrap(), "int");
    let byte = Const { public: true, ident: "B".to_string(), ty: path("u8") };
    assert_eq!(template.c_type(MapInput::Const(&byte)).unwrap(), "uint8_t");
    let alias = Type { public: true, ident: "c_uint".to_string(), ty: path("u32") };
    assert_eq!(template.c_type(MapInput::Alias(&alias)).unwrap(), "unsigned int");
}

#[test]
fn templates_know_the_declarations() {
    let items = named_items();
    let generator = TestGenerator::new();
    let c = CTestTemplate::new(&items, &generator);
    let rust = RustTestTemplate::new(&items, &generator);
    for translator in [&c.translator, &rust.translator] {
        assert_eq!(translator.translate_type(&path("c_foo")).unwrap(), "c_foo");
        assert_eq!(translator.translate_type(&path("c_bar")).unwrap(), "c_bar");
        assert_eq!(translator.translate_type(&path("c_baz")).unwrap(), "baz");
    }
    assert_eq!(items.struct_names(), ["c_foo"]);
    assert_eq!(items.union_names(), ["c_bar"]);
    assert!(FfiItems::new().struct_names().is_empty());
}
