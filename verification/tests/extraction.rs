use ctest_next::ast::{
    Abi, Const, Expr, Field, ForeignFn, ForeignItem, ForeignStatic, Item, Parameter, Struct, Ty,
    Type, Union,
};
use ctest_next::ffi_items::FfiItems;

fn path(ident: &str) -> Ty {
    Ty::Path { ident: ident.to_string(), argument: None }
}

fn field(public: bool, ident: &str, ty: Ty) -> Field {
    Field { public, ident: ident.to_string(), ty }
}

/// The tree of
///
/// ```text
/// use std::os::raw::c_void;
///
/// mod level1 {
///     pub type Foo = u8;
///
///     pub const bar: u32 = 512;
///
///     pub union Word {
///         word: u16,
///         bytes: [u8; 2],
///     }
/// }
///
/// pub struct Array {
///     ptr: *mut c_void,
///     len: usize,
/// }
///
/// extern "C" {
///     static baz: u16;
///
///     fn malloc(size: usize) -> *mut c_void;
/// }
/// ```
fn all_items() -> Vec<Item> {
    let word = Union {
        public: true,
        ident: "Word".to_string(),
        fields: vec![
            field(false, "word", path("u16")),
            field(
                false,
                "bytes",
                Ty::Array { elem: Box::new(path("u8")), len: Expr::Int { text: "2".to_string() } },
            ),
        ],
    };
    let level1 = Item::Mod {
        content: vec![
            Item::Type(Type { public: true, ident: "Foo".to_string(), ty: path("u8") }),
            Item::Const(Const { public: true, ident: "bar".to_string(), ty: path("u32") }),
            Item::Union(word),
        ],
    };
    let array = Struct {
        public: true,
        ident: "Array".to_string(),
        fields: vec![
            field(false, "ptr", Ty::Ptr { mutable: true, elem: Box::new(path("c_void")) }),
            field(false, "len", path("usize")),
        ],
    };
    let block = Item::ForeignMod {
        abi: Some(Abi::C),
        items: vec![
            ForeignItem::Static(ForeignStatic {
                public: false,
                ident: "baz".to_string(),
                link_name: None,
                ty: path("u16"),
            }),
            ForeignItem::Fn(ForeignFn {
                public: false,
                ident: "malloc".to_string(),
                link_name: None,
                parameters: vec![Parameter { ident: "size".to_string(), ty: path("usize") }],
                return_type: Some(Ty::Ptr { mutable: true, elem: Box::new(path("c_void")) }),
            }),
        ],
    };
    vec![Item::Other, level1, Item::Struct(array), block]
}

#[test]
fn test_extraction_ffi_items() {
    let ast = all_items();

    let mut ffi_items = FfiItems::new();
    ffi_items.visit_file(ast);

    let idents = |names: Vec<&str>| names.into_iter().map(String::from).collect::<Vec<_>>();
    assert_eq!(ffi_items.aliases.iter().map(|a| a.ident()).collect::<Vec<_>>(), idents(vec!["Foo"]));
    assert_eq!(ffi_items.constants.iter().map(|a| a.ident()).collect::<Vec<_>>(), idents(vec!["bar"]));
    assert_eq!(
        ffi_items.foreign_functions.iter().map(|a| a.ident()).collect::<Vec<_>>(),
        idents(vec!["malloc"])
    );
    assert_eq!(
        ffi_items.foreign_statics.iter().map(|a| a.ident()).collect::<Vec<_>>(),
        idents(vec!["baz"])
    );
    assert_eq!(ffi_items.structs.iter().map(|a| a.ident()).collect::<Vec<_>>(), idents(vec!["Array"]));
    assert_eq!(ffi_items.unions.iter().map(|a| a.ident()).collect::<Vec<_>>(), idents(vec!["Word"]));
}

#[test]
fn extraction_of_a_union_an_alias_and_a_constant() {
    let word = Union {
        public: true,
        ident: "Word".to_string(),
        fields: vec![
            field(true, "word", path("u16")),
            field(
                true,
                "bytes",
                Ty::Array { elem: Box::new(path("u8")), len: Expr::Int { text: "2".to_string() } },
            ),
        ],
    };
    let tree = vec![
        Item::Union(word),
        Item::Type(Type { public: true, ident: "Foo".to_string(), ty: path("u8") }),
        Item::Const(Const { public: true, ident: "bar".to_string(), ty: path("u32") }),
    ];
    let mut ffi_items = FfiItems::new();
    ffi_items.visit_file(tree);
    assert_eq!(ffi_items.aliases.iter().map(|a| a.ident()).collect::<Vec<_>>(), ["Foo"]);
    assert_eq!(ffi_items.constants.iter().map(|a| a.ident()).collect::<Vec<_>>(), ["bar"]);
    assert_eq!(ffi_items.unions.iter().map(|a| a.ident()).collect::<Vec<_>>(), ["Word"]);
    assert!(ffi_items.structs.is_empty());
    assert!(ffi_items.foreign_functions.is_empty());
    assert!(ffi_items.foreign_statics.is_empty());
}

#[test]
fn extraction_keeps_the_order_across_modules() {
    let alias = |ident: &str| Item::Type(Type { public: true, ident: ident.to_string(), ty: path("u8") });
    let tree = vec![
        alias("a"),
        Item::Mod { content: vec![alias("b"), Item::Mod { content: vec![alias("c")] }, alias("d")] },
        alias("e"),
    ];
    let mut ffi_items = FfiItems::new();
    ffi_items.visit_file(tree);
    assert_eq!(
        ffi_items.aliases.iter().map(|a| a.ident()).collect::<Vec<_>>(),
        ["a", "b", "c", "d", "e"]
    );
}

#[test]
fn foreign_items_take_the_convention_of_their_block() {
    let function = |ident: &str| {
        ForeignItem::Fn(ForeignFn {
            public: true,
            ident: ident.to_string(),
            link_name: Some(format!("{}_impl", ident)),
            parameters: vec![],
            return_type: None,
        })
    };
    let tree = vec![
        Item::ForeignMod { abi: None, items: vec![function("plain"), ForeignItem::Other] },
        Item::ForeignMod {
            abi: Some(Abi::Other("system".to_string())),
            items: vec![function("win")],
        },
    ];
    let mut ffi_items = FfiItems::new();
    ffi_items.visit_file(tree);
    assert_eq!(ffi_items.foreign_functions.len(), 2);
    assert!(matches!(ffi_items.foreign_functions[0].abi, Abi::C));
    assert!(matches!(&ffi_items.foreign_functions[1].abi, Abi::Other(name) if name == "system"));
    assert_eq!(ffi_items.foreign_functions[0].link_name(), Some("plain_impl"));
    assert_eq!(ffi_items.foreign_functions[1].ident(), "win");
}

#[test]
fn membership() {
    let mut ffi_items = FfiItems::new();
    ffi_items.visit_file(all_items());
    assert!(ffi_items.contains_struct("Array"));
    assert!(!ffi_items.contains_struct("Word"));
    assert!(ffi_items.contains_union("Word"));
    assert!(!ffi_items.contains_union("Array"));
    assert!(!ffi_items.contains_struct("Arr"));
    assert!(!FfiItems::new().contains_struct("Array"));
}
