use ctest_next::ast::{Abi, Const, Field, Fn, Parameter, Static, Struct, Ty, Type};
use ctest_next::ffi_items::FfiItems;
use ctest_next::generator::{GenerationError, TestGenerator};
use ctest_next::rules::{MapInput, TyKind};
use ctest_next::{Language, VolatileItemKind};

fn path(ident: &str) -> Ty {
    Ty::Path { ident: ident.to_string(), argument: None }
}

fn constant(ident: &str) -> Const {
    Const { public: true, ident: ident.to_string(), ty: path("u32") }
}

fn alias(ident: &str) -> Type {
    Type { public: true, ident: ident.to_string(), ty: path("u8") }
}

fn structure(ident: &str, fields: Vec<Field>) -> Struct {
    Struct { public: true, ident: ident.to_string(), fields }
}

fn field(ident: &str) -> Field {
    Field { public: true, ident: ident.to_string(), ty: path("u8") }
}

fn function(ident: &str, parameters: Vec<&str>) -> Fn {
    Fn {
        public: true,
        abi: Abi::C,
        ident: ident.to_string(),
        link_name: None,
        parameters: parameters
            .into_iter()
            .map(|p| Parameter { ident: p.to_string(), ty: path("u8") })
            .collect(),
        return_type: None,
    }
}

fn global(ident: &str) -> Static {
    Static { public: true, abi: Abi::C, ident: ident.to_string(), link_name: None, ty: path("u8") }
}

#[test]
fn default_names() {
    let generator = TestGenerator::new();
    let s = structure("timeval", vec![field("tv_sec")]);
    assert_eq!(generator.map(MapInput::Const(&constant("FOO"))).unwrap(), "FOO");
    assert_eq!(generator.map(MapInput::Fn(&function("malloc", vec![]))).unwrap(), "malloc");
    assert_eq!(generator.map(MapInput::Static(&global("errno"))).unwrap(), "errno");
    assert_eq!(generator.map(MapInput::Struct(&s)).unwrap(), "timeval");
    assert_eq!(generator.map(MapInput::Alias(&alias("size_t"))).unwrap(), "size_t");
    assert_eq!(generator.map(MapInput::Field(&s, &s.fields[0])).unwrap(), "tv_sec");
    assert_eq!(generator.map(MapInput::Type("timeval", TyKind::Struct)).unwrap(), "struct timeval");
    assert_eq!(generator.map(MapInput::Type("Word", TyKind::Union)).unwrap(), "union Word");
    assert_eq!(generator.map(MapInput::Type("uint8_t", TyKind::Other)).unwrap(), "uint8_t");
}

#[test]
fn first_rename_rule_wins() {
    let mut generator = TestGenerator::new();
    generator
        .rename_constant(|c| if c.ident() == "X" { Some("foo".to_string()) } else { None })
        .rename_constant(|_| Some("bar".to_string()));
    assert_eq!(generator.map(MapInput::Const(&constant("X"))).unwrap(), "foo");
    assert_eq!(generator.map(MapInput::Const(&constant("Y"))).unwrap(), "bar");
    assert_eq!(generator.resolve(MapInput::Const(&constant("X"))), "foo");
}

#[test]
fn rename_rules_keep_to_their_kind() {
    let mut generator = TestGenerator::new();
    generator
        .rename_constant(|_| Some("constant".to_string()))
        .rename_fn(|f| Some(format!("{}_c", f.ident())))
        .rename_field(|s, f| Some(format!("{}_{}", s.ident(), f.ident())))
        .rename_type(|ty, kind| if kind == TyKind::Struct { Some(format!("{}_t", ty)) } else { None });
    let s = structure("point", vec![field("x")]);
    assert_eq!(generator.map(MapInput::Const(&constant("A"))).unwrap(), "constant");
    assert_eq!(generator.map(MapInput::Fn(&function("open", vec![]))).unwrap(), "open_c");
    assert_eq!(generator.map(MapInput::Field(&s, &s.fields[0])).unwrap(), "point_x");
    assert_eq!(generator.map(MapInput::Type("point", TyKind::Struct)).unwrap(), "point_t");
    assert_eq!(generator.map(MapInput::Type("word", TyKind::Union)).unwrap(), "union word");
    assert_eq!(generator.map(MapInput::Static(&global("errno"))).unwrap(), "errno");
    assert_eq!(generator.map(MapInput::Struct(&s)).unwrap(), "point");
    assert_eq!(generator.map(MapInput::Alias(&alias("A"))).unwrap(), "A");
}

#[test]
fn one_skip_rule_is_enough() {
    let mut generator = TestGenerator::new();
    generator
        .skip_const(|_| false)
        .skip_const(|c| c.ident() == "NOT_PRESENT")
        .skip_const(|_| false);
    assert!(generator.should_skip(&MapInput::Const(&constant("NOT_PRESENT"))));
    assert!(!generator.should_skip(&MapInput::Const(&constant("PRESENT"))));
    // A rule on constants says nothing of other items.
    assert!(!generator.should_skip(&MapInput::Alias(&alias("NOT_PRESENT"))));
    assert!(!TestGenerator::new().should_skip(&MapInput::Const(&constant("NOT_PRESENT"))));
}

#[test]
fn skip_rules_of_every_kind() {
    let mut generator = TestGenerator::new();
    generator
        .skip_struct(|s| s.ident() == "skipped")
        .skip_field(|s, f| s.ident() == "kept" && f.ident() == "hidden")
        .skip_field_type(|_, f| f.ident() == "opaque")
        .skip_alias(|a| a.ident().starts_with("foo_"))
        .skip_static(|s| s.ident() == "skipped")
        .skip_fn(|f| f.ident() == "skipped");
    let kept = structure("kept", vec![field("hidden"), field("shown"), field("opaque")]);
    assert!(generator.should_skip(&MapInput::Struct(&structure("skipped", vec![]))));
    assert!(!generator.should_skip(&MapInput::Struct(&kept)));
    assert!(generator.should_skip(&MapInput::Field(&kept, &kept.fields[0])));
    assert!(!generator.should_skip(&MapInput::Field(&kept, &kept.fields[1])));
    assert!(!generator.should_skip(&MapInput::Field(&kept, &kept.fields[2])));
    assert!(generator.should_skip(&MapInput::FieldType(&kept, &kept.fields[2])));
    assert!(!generator.should_skip(&MapInput::FieldType(&kept, &kept.fields[0])));
    assert!(generator.should_skip(&MapInput::Alias(&alias("foo_t"))));
    assert!(!generator.should_skip(&MapInput::Alias(&alias("bar_t"))));
    assert!(generator.should_skip(&MapInput::Static(&global("skipped"))));
    assert!(generator.should_skip(&MapInput::Fn(&function("skipped", vec![]))));
    assert!(!generator.should_skip(&MapInput::Fn(&function("kept", vec![]))));
    assert!(!generator.should_skip(&MapInput::Const(&constant("skipped"))));
    assert!(!generator.should_skip(&MapInput::Type("skipped", TyKind::Struct)));
}

#[test]
fn filtering() {
    let mut items = FfiItems::new();
    for ident in ["A", "NOT_PRESENT", "B", "ALSO_NOT"] {
        items.constants.push(constant(ident));
    }
    items.aliases.push(alias("foo_t"));
    items.aliases.push(alias("bar_t"));
    items.structs.push(structure("timeval", vec![]));
    items.structs.push(structure("point", vec![]));
    items.foreign_functions.push(function("malloc", vec![]));
    items.foreign_statics.push(global("errno"));

    let mut generator = TestGenerator::new();
    generator
        .skip_const(|c| c.ident() == "NOT_PRESENT")
        .skip_const(|c| c.ident() == "ALSO_NOT")
        .skip_struct(|s| s.ident() == "timeval")
        .skip_alias(|a| a.ident() == "bar_t")
        .skip_static(|_| true);
    let skipped = generator.filter_ffi_items(&mut items);

    let names = |list: &Vec<Const>| list.iter().map(|c| c.ident().to_string()).collect::<Vec<_>>();
    assert_eq!(names(&items.constants), ["A", "B"]);
    assert_eq!(names(&skipped.constants), ["NOT_PRESENT", "ALSO_NOT"]);
    assert_eq!(items.structs.iter().map(|s| s.ident()).collect::<Vec<_>>(), ["point"]);
    assert_eq!(skipped.structs.iter().map(|s| s.ident()).collect::<Vec<_>>(), ["timeval"]);
    assert_eq!(items.aliases.iter().map(|s| s.ident()).collect::<Vec<_>>(), ["foo_t"]);
    assert_eq!(skipped.aliases.iter().map(|s| s.ident()).collect::<Vec<_>>(), ["bar_t"]);
    assert_eq!(items.foreign_functions.len(), 1);
    assert!(skipped.foreign_functions.is_empty());
    assert!(items.foreign_statics.is_empty());
    assert_eq!(skipped.foreign_statics.len(), 1);

    assert!(generator.skip_report(&skipped).is_empty());
    generator.verbose_skip(true);
    assert_eq!(
        generator.skip_report(&skipped),
        [
            "Skipping alias \"bar_t\"",
            "Skipping const \"NOT_PRESENT\"",
            "Skipping const \"ALSO_NOT\"",
            "Skipping struct \"timeval\"",
            "Skipping static \"errno\"",
        ]
    );
}

#[test]
fn volatile_and_array_rules() {
    let mut generator = TestGenerator::new();
    let v = structure("V", vec![field("v"), field("w")]);
    let vol0 = function("T1_vol0", vec!["arg0", "arg1"]);
    assert!(!generator.is_volatile(VolatileItemKind::Static(&global("vol_ptr"))));
    generator
        .volatile_item(|item| match item {
            VolatileItemKind::StructField(s, f) => s.ident() == "V" && f.ident() == "v",
            VolatileItemKind::Static(s) => s.ident() == "vol_ptr",
            _ => false,
        })
        .volatile_item(|item| match item {
            VolatileItemKind::FnArgument(f, p) => f.ident() == "T1_vol0" && p.ident() == "arg0",
            VolatileItemKind::FnReturnType(f) => f.ident() == "T1_vol1",
            _ => false,
        });
    assert!(generator.is_volatile(VolatileItemKind::StructField(&v, &v.fields[0])));
    assert!(!generator.is_volatile(VolatileItemKind::StructField(&v, &v.fields[1])));
    assert!(generator.is_volatile(VolatileItemKind::Static(&global("vol_ptr"))));
    assert!(!generator.is_volatile(VolatileItemKind::Static(&global("other"))));
    assert!(generator.is_volatile(VolatileItemKind::FnArgument(&vol0, &vol0.parameters[0])));
    assert!(!generator.is_volatile(VolatileItemKind::FnArgument(&vol0, &vol0.parameters[1])));
    assert!(generator.is_volatile(VolatileItemKind::FnReturnType(&function("T1_vol1", vec![]))));
    assert!(!generator.is_volatile(VolatileItemKind::FnReturnType(&vol0)));

    let t1r = function("T1r", vec!["a", "b"]);
    assert!(!generator.is_array_arg(&t1r, &t1r.parameters[0]));
    generator.array_arg(|f, p| p.ident() == "a" && matches!(f.ident(), "T1r" | "T1s"));
    assert!(generator.is_array_arg(&t1r, &t1r.parameters[0]));
    assert!(!generator.is_array_arg(&t1r, &t1r.parameters[1]));
    let other = function("T1z", vec!["a"]);
    assert!(!generator.is_array_arg(&other, &other.parameters[0]));
}

#[test]
fn configuration() {
    let mut generator = TestGenerator::new();
    assert_eq!(generator.language, Language::C);
    assert_eq!(Language::default(), Language::C);
    generator
        .header("foo.h")
        .header("bar.h")
        .target("x86_64-unknown-linux-gnu")
        .include_dir("tests/input")
        .out_dir("path/to/output")
        .verbose_skip(true)
        .language(Language::CXX)
        .flag("-Wno-type-limits")
        .define("_GNU_SOURCE", None)
        .define("_WIN32_WINNT", Some("0x8000"))
        .roundtrip_arrays(true);
    assert_eq!(generator.headers, ["foo.h", "bar.h"]);
    assert_eq!(generator.target.as_deref(), Some("x86_64-unknown-linux-gnu"));
    assert_eq!(generator.target_str(), Some("x86_64-unknown-linux-gnu"));
    assert_eq!(generator.includes, ["tests/input"]);
    assert_eq!(generator.out_dir.as_deref(), Some("path/to/output"));
    assert!(generator.verbose_skip);
    assert_eq!(generator.language, Language::CXX);
    assert_eq!(generator.flags, ["-Wno-type-limits"]);
    assert_eq!(
        generator.defines,
        [
            ("_GNU_SOURCE".to_string(), None),
            ("_WIN32_WINNT".to_string(), Some("0x8000".to_string()))
        ]
    );
    assert!(generator.roundtrip_arrays);
    assert_eq!(Language::C.extension(), "c");
    assert_eq!(Language::CXX.extension(), "cpp");
    assert_eq!(Language::C.display_name(), "C");
    assert_eq!(Language::CXX.display_name(), "C++");
}

#[test]
fn error_messages() {
    assert_eq!(
        GenerationError::MacroExpansion("src/t1.rs".to_string(), "no such file".to_string()).message(),
        "unable to expand crate src/t1.rs: no such file"
    );
    assert_eq!(
        GenerationError::RustSyntax("fn".to_string(), "expected identifier".to_string()).message(),
        "unable to parse expanded crate fn: expected identifier"
    );
    assert_eq!(
        GenerationError::TemplateRender("C".to_string(), "bad type".to_string()).message(),
        "unable to render C template: bad type"
    );
    assert_eq!(
        GenerationError::OsError("permission denied".to_string()).message(),
        "unable to create or write template file: permission denied"
    );
    assert_eq!(GenerationError::ItemMap.message(), "unable to map Rust identifier or type");
}
