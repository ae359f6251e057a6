//! The tests that are emitted.
//!
//! Every item that is kept gets one pair of routines, one on each side: a
//! Rust function, and the C function that it probes. A constant has its
//! value tested and a static its address; a struct or union its size, its
//! alignment and the offsets of its fields; an alias its signedness; and
//! a function its signature, through a pointer to it.
//!
//! This module decides which items get which pair, and gives each pair
//! what it is stitched from: the names of the two routines, the C name
//! and C type of the item, and what the rules say of it. The two names
//! of a pair are made from the item's identifier, so that the routines
//! of both sides meet.

use crate::ast::{Const, Field, Fn, Item, Static, Struct, Ty, TyView, Type, Union};
use crate::ffi_items::{Declared, FfiItems};
use crate::generator::{GenerationError, TestGenerator};
use crate::rules::{MapInput, NameRule};
use crate::syntax::{is_rust_file, parse_expanded};
use crate::template::{
    allowed_by, kind_of, should_roundtrip, should_skip_field, should_test_fn_ptr,
    should_test_sign, skips_field, CTestTemplate, RustTestTemplate,
};
use crate::text::{same_text, starts_with, views};
use crate::template::setting_of;
use crate::translator::{named_type, primitive_name, translated_type, Setting, TranslationError};
use crate::VolatileItemKind;
use vstd::prelude::*;
use vstd::string::StringExecFns;

verus! {

/// The test of a constant's value.
#[derive(Debug)]
pub struct ConstTest {
    /// The constant's identifier.
    pub ident: String,
    /// The Rust function that compares the two values.
    pub rust_fn: String,
    /// The C function that returns a pointer to the C value.
    pub c_fn: String,
    /// The constant's name in C.
    pub c_ident: String,
    /// The constant's type in C.
    pub c_type: String,
    /// Whether the values are strings, compared by content and not byte
    /// for byte.
    pub by_content: bool,
}

/// The test of a field's offset.
#[derive(Debug)]
pub struct FieldTest {
    /// The field's identifier.
    pub ident: String,
    /// The Rust function that compares the two offsets.
    pub rust_fn: String,
    /// The C function that returns the offset in C.
    pub c_fn: String,
    /// The field's name in C.
    pub c_field: String,
    /// Whether the field is volatile in C.
    pub volatile: bool,
}

/// The test of a struct's or union's layout: its size, its alignment and
/// the offsets of its fields.
#[derive(Debug)]
pub struct LayoutTest {
    /// The identifier of the struct or union.
    pub ident: String,
    /// The Rust function that compares size and alignment.
    pub rust_fn: String,
    /// The C function that returns the size in C.
    pub c_size_fn: String,
    /// The C function that returns the alignment in C.
    pub c_align_fn: String,
    /// The type in C.
    pub c_type: String,
    /// For each field, in the order of declaration, the test of its
    /// offset if it gets one.
    pub fields: Vec<Option<FieldTest>>,
}

/// The test of an alias' signedness.
#[derive(Debug)]
pub struct SignTest {
    /// The alias' identifier.
    pub ident: String,
    /// The Rust function that compares the two answers.
    pub rust_fn: String,
    /// The C function that says whether the C type is signed.
    pub c_fn: String,
    /// The alias' type in C.
    pub c_type: String,
    /// Whether the type that the alias stands for is signed.
    pub signed: bool,
}

/// What the rules say of a parameter of a function.
#[derive(Debug)]
pub struct Argument {
    /// The parameter's identifier.
    pub ident: String,
    /// Whether the parameter, a pointer, is the start of an array.
    pub array: bool,
    /// Whether the parameter is volatile in C.
    pub volatile: bool,
}

/// The test of a function's signature, through a pointer to it.
#[derive(Debug)]
pub struct FnTest {
    /// The function's identifier.
    pub ident: String,
    /// The Rust function that compares the two pointers.
    pub rust_fn: String,
    /// The C function that returns a pointer to the C function.
    pub c_fn: String,
    /// The function's name in C.
    pub c_ident: String,
    /// What the rules say of each parameter, in order.
    pub arguments: Vec<Argument>,
    /// Whether what the function returns is volatile in C.
    pub volatile_return: bool,
}

/// The test of a static's address.
#[derive(Debug)]
pub struct StaticTest {
    /// The static's identifier.
    pub ident: String,
    /// The Rust function that compares the two addresses.
    pub rust_fn: String,
    /// The C function that returns the address of the C variable.
    pub c_fn: String,
    /// The static's name in C.
    pub c_ident: String,
    /// The static's type in C.
    pub c_type: String,
    /// Whether the static is volatile in C.
    pub volatile: bool,
}

/// The tests of a set of declarations. Each list goes by the list of
/// declarations of its kind: the test at a position is that of the
/// declaration at the same position, and `None` where it gets none.
/// Every constant and every static has its test.
#[derive(Debug)]
pub struct TestSuite {
    pub constants: Vec<ConstTest>,
    pub structs: Vec<Option<LayoutTest>>,
    pub unions: Vec<Option<LayoutTest>>,
    pub aliases: Vec<Option<SignTest>>,
    pub functions: Vec<Option<FnTest>>,
    pub statics: Vec<StaticTest>,
}

/// Whether a type is `&str`: constants of that type are compared by content.
pub open spec fn is_str(ty: TyView) -> bool {
    ty matches TyView::Reference { mutable: false, elem } && *elem matches TyView::Path { ident, .. }
        && ident == "str"@
}

/// Whether one of `fields` is an array.
pub open spec fn has_array_field(fields: Seq<Field>) -> bool {
    exists|k: int| 0 <= k < fields.len() && (#[trigger] fields[k]).ty@ is Array
}

/// Whether a C type name spells a signed integer (`Some(true)`), an
/// unsigned one (`Some(false)`), or neither.
///
/// The fixed-width integers and the two size types go by their name;
/// `short`, `int`, `long` and `long long` are signed; and a name says so
/// itself where it begins with `signed ` or `unsigned `.
pub open spec fn signedness(c_type: Seq<char>) -> Option<bool> {
    if c_type == "int8_t"@ || c_type == "int16_t"@ || c_type == "int32_t"@ || c_type == "int64_t"@
        || c_type == "ssize_t"@ || c_type == "short"@ || c_type == "int"@ || c_type == "long"@
        || c_type == " long"@ || c_type == "long long"@ || c_type == " long long"@
        || "signed "@.is_prefix_of(c_type) {
        Some(true)
    } else if c_type == "uint8_t"@ || c_type == "uint16_t"@ || c_type == "uint32_t"@ || c_type
        == "uint64_t"@ || c_type == "size_t"@ || "unsigned "@.is_prefix_of(c_type) {
        Some(false)
    } else {
        None
    }
}

/// The signedness of the type that an alias stands for: that of the C
/// name of a named type, and none for any other shape.
pub open spec fn aliased_signedness(ty: TyView, setting: Setting) -> Option<bool> {
    match ty {
        TyView::Path { ident, .. } => signedness(named_type(ident, setting)),
        _ => None,
    }
}

/// `test` may be what `rule` says of testing the item named `ident`.
pub open spec fn allowed_for(rule: Option<NameRule>, ident: Seq<char>, test: bool) -> bool {
    exists|text: &str| text@ == ident && #[trigger] allowed_by(rule, text, test)
}

/// `test` may be whether a struct or union named `ident` with `fields`
/// gets a test of its layout. One with an array among its fields gets
/// none unless the generator is set to test those; any other gets one
/// unless the round-trip rule leaves it out.
pub open spec fn tests_layout(
    generator: &TestGenerator,
    ident: Seq<char>,
    fields: Seq<Field>,
    test: bool,
) -> bool {
    if !generator@.roundtrip_arrays && has_array_field(fields) {
        !test
    } else {
        allowed_for(generator@.skip_roundtrip, ident, test)
    }
}

/// `test` may be whether `alias` gets a test of its signedness: it does
/// where it stands for a signed or unsigned type, unless the signedness
/// rule leaves it out.
pub open spec fn tests_sign(
    generator: &TestGenerator,
    setting: Setting,
    alias: &Type,
    test: bool,
) -> bool {
    if aliased_signedness(alias.ty@, setting) is None {
        !test
    } else {
        allowed_for(generator@.skip_signededness, alias.ident@, test)
    }
}

/// Whether a C type name spells a signed or an unsigned integer.
pub fn sign_of(c_type: &str) -> (sign: Option<bool>)
    ensures
        sign == signedness(c_type@),
{
    if same_text(c_type, "int8_t") || same_text(c_type, "int16_t") || same_text(c_type, "int32_t")
        || same_text(c_type, "int64_t") || same_text(c_type, "ssize_t") || same_text(
        c_type,
        "short",
    ) || same_text(c_type, "int") || same_text(c_type, "long") || same_text(c_type, " long")
        || same_text(c_type, "long long") || same_text(c_type, " long long") || starts_with(
        c_type,
        "signed ",
    ) {
        Some(true)
    } else if same_text(c_type, "uint8_t") || same_text(c_type, "uint16_t") || same_text(
        c_type,
        "uint32_t",
    ) || same_text(c_type, "uint64_t") || same_text(c_type, "size_t") || starts_with(
        c_type,
        "unsigned ",
    ) {
        Some(false)
    } else {
        None
    }
}

/// `prefix` followed by `ident`.
fn prefixed(prefix: &str, ident: &str) -> (name: String)
    ensures
        name@ == prefix@ + ident@,
{
    let mut name = prefix.to_string();
    name.append(ident);
    name
}

/// `prefix`, then `owner`, an underscore and `ident`.
fn prefixed_member(prefix: &str, owner: &str, ident: &str) -> (name: String)
    ensures
        name@ == prefix@ + owner@ + "_"@ + ident@,
{
    let mut name = prefix.to_string();
    name.append(owner);
    name.append("_");
    name.append(ident);
    name
}

/// Whether one of `fields` is an array.
fn any_array(fields: &Vec<Field>) -> (found: bool)
    ensures
        found == has_array_field(fields@),
{
    let mut k: usize = 0;
    while k < fields.len()
        invariant
            k <= fields.len(),
            forall|j: int| 0 <= j < k ==> !((#[trigger] fields@[j]).ty@ is Array),
        decreases fields.len() - k,
    {
        match &fields[k].ty {
            Ty::Array { .. } => {
                assert(fields@[k as int].ty@ is Array);
                return true;
            },
            _ => {},
        }
        k = k + 1;
    }
    false
}

impl<'a> CTestTemplate<'a> {
    /// `test` is the test of the constant `c`.
    pub open spec fn is_const_test(&self, c: &Const, test: ConstTest) -> bool {
        &&& test.ident@ == c.ident@
        &&& test.rust_fn@ == "const_"@ + c.ident@
        &&& test.c_fn@ == "__test_const_"@ + c.ident@
        &&& self.generator@.resolves(MapInput::Const(c), test.c_ident)
        &&& self.types(MapInput::Const(c), Ok(test.c_type))
        &&& test.by_content == is_str(c.ty@)
    }

    /// `test` is the test of the offset of `field` of the struct `s`.
    pub open spec fn is_field_test(&self, s: &Struct, field: &Field, test: FieldTest) -> bool {
        &&& test.ident@ == field.ident@
        &&& test.rust_fn@ == "offset_"@ + s.ident@ + "_"@ + field.ident@
        &&& test.c_fn@ == "__test_offset_"@ + s.ident@ + "_"@ + field.ident@
        &&& self.generator@.resolves(MapInput::Field(s, field), test.c_field)
        &&& self.generator@.volatile_outcome(VolatileItemKind::StructField(s, field), test.volatile)
    }

    /// `tests` goes by the fields of the struct `s`: a field has the test
    /// of its offset unless its tests are skipped.
    pub open spec fn are_field_tests(&self, s: &Struct, tests: Seq<Option<FieldTest>>) -> bool {
        &&& tests.len() == s.fields@.len()
        &&& forall|k: int|
            0 <= k < tests.len() ==> match #[trigger] tests[k] {
                None => skips_field(self.generator, s, &s.fields@[k], true),
                Some(test) => skips_field(self.generator, s, &s.fields@[k], false)
                    && self.is_field_test(s, &s.fields@[k], test),
            }
    }

    /// `test` bears the names of the layout test of an item named `ident`.
    pub open spec fn is_layout_of(ident: Seq<char>, test: LayoutTest) -> bool {
        &&& test.ident@ == ident
        &&& test.rust_fn@ == "size_align_"@ + ident
        &&& test.c_size_fn@ == "__test_size_"@ + ident
        &&& test.c_align_fn@ == "__test_align_"@ + ident
    }

    /// `test` is the test of the layout of the struct `s`.
    pub open spec fn is_struct_test(&self, s: &Struct, test: LayoutTest) -> bool {
        &&& Self::is_layout_of(s.ident@, test)
        &&& self.types(MapInput::Struct(s), Ok(test.c_type))
        &&& self.are_field_tests(s, test.fields@)
    }

    /// `test` is the test of the offset of `field` of the union `u`. No
    /// rule renames the field of a union or calls it volatile.
    pub open spec fn is_union_field_test(u: &Union, field: &Field, test: FieldTest) -> bool {
        &&& test.ident@ == field.ident@
        &&& test.rust_fn@ == "offset_"@ + u.ident@ + "_"@ + field.ident@
        &&& test.c_fn@ == "__test_offset_"@ + u.ident@ + "_"@ + field.ident@
        &&& test.c_field@ == field.ident@
        &&& !test.volatile
    }

    /// `test` is the test of the layout of the union `u`: its type is the
    /// name that the rules give to the union's own name, and its public
    /// fields have their offsets tested.
    pub open spec fn is_union_test(&self, u: &Union, test: LayoutTest) -> bool {
        &&& Self::is_layout_of(u.ident@, test)
        &&& self.names(u.ident@, kind_of(self.ffi_items@, u.ident@), test.c_type)
        &&& test.fields@.len() == u.fields@.len()
        &&& forall|k: int|
            0 <= k < test.fields@.len() ==> match #[trigger] test.fields@[k] {
                None => !u.fields@[k].public,
                Some(field) => u.fields@[k].public && Self::is_union_field_test(
                    u,
                    &u.fields@[k],
                    field,
                ),
            }
    }

    /// `test` is the test of the signedness of `alias`.
    pub open spec fn is_sign_test(&self, alias: &Type, test: SignTest) -> bool {
        &&& test.ident@ == alias.ident@
        &&& test.rust_fn@ == "sign_"@ + alias.ident@
        &&& test.c_fn@ == "__test_signed_"@ + alias.ident@
        &&& self.types(MapInput::Alias(alias), Ok(test.c_type))
        &&& aliased_signedness(alias.ty@, self.translator.setting()) == Some(test.signed)
    }

    /// `note` is what the rules say of the parameter at `k` of `function`.
    pub open spec fn is_argument(&self, function: &Fn, k: int, note: Argument) -> bool {
        let parameter = &function.parameters@[k];
        &&& note.ident@ == parameter.ident@
        &&& self.generator@.array_outcome(function, parameter, note.array)
        &&& self.generator@.volatile_outcome(
            VolatileItemKind::FnArgument(function, parameter),
            note.volatile,
        )
    }

    /// `test` is the test of the signature of `function`.
    pub open spec fn is_fn_test(&self, function: &Fn, test: FnTest) -> bool {
        &&& test.ident@ == function.ident@
        &&& test.rust_fn@ == "fn_"@ + function.ident@
        &&& test.c_fn@ == "__test_fn_"@ + function.ident@
        &&& self.generator@.resolves(MapInput::Fn(function), test.c_ident)
        &&& test.arguments@.len() == function.parameters@.len()
        &&& forall|k: int|
            0 <= k < test.arguments@.len() ==> self.is_argument(
                function,
                k,
                #[trigger] test.arguments@[k],
            )
        &&& self.generator@.volatile_outcome(
            VolatileItemKind::FnReturnType(function),
            test.volatile_return,
        )
    }

    /// `test` is the test of the address of the static `item`.
    pub open spec fn is_static_test(&self, item: &Static, test: StaticTest) -> bool {
        &&& test.ident@ == item.ident@
        &&& test.rust_fn@ == "static_"@ + item.ident@
        &&& test.c_fn@ == "__test_static_"@ + item.ident@
        &&& self.generator@.resolves(MapInput::Static(item), test.c_ident)
        &&& self.types(MapInput::Static(item), Ok(test.c_type))
        &&& self.generator@.volatile_outcome(VolatileItemKind::Static(item), test.volatile)
    }

    /// `suite` holds the tests of the declarations: a test for every
    /// constant and every static; for every struct and union the test of
    /// its layout, and for every alias that of its signedness, and for
    /// every function that of its signature, where it gets one.
    pub open spec fn is_suite(&self, suite: TestSuite) -> bool {
        let items = self.ffi_items@;
        &&& suite.constants@.len() == items.constants.len()
        &&& forall|k: int|
            0 <= k < items.constants.len() ==> self.is_const_test(
                &items.constants[k],
                #[trigger] suite.constants@[k],
            )
        &&& suite.structs@.len() == items.structs.len()
        &&& forall|k: int|
            0 <= k < items.structs.len() ==> match #[trigger] suite.structs@[k] {
                None => tests_layout(
                    self.generator,
                    items.structs[k].ident@,
                    items.structs[k].fields@,
                    false,
                ),
                Some(test) => tests_layout(
                    self.generator,
                    items.structs[k].ident@,
                    items.structs[k].fields@,
                    true,
                ) && self.is_struct_test(&items.structs[k], test),
            }
        &&& suite.unions@.len() == items.unions.len()
        &&& forall|k: int|
            0 <= k < items.unions.len() ==> match #[trigger] suite.unions@[k] {
                None => tests_layout(
                    self.generator,
                    items.unions[k].ident@,
                    items.unions[k].fields@,
                    false,
                ),
                Some(test) => tests_layout(
                    self.generator,
                    items.unions[k].ident@,
                    items.unions[k].fields@,
                    true,
                ) && self.is_union_test(&items.unions[k], test),
            }
        &&& suite.aliases@.len() == items.aliases.len()
        &&& forall|k: int|
            0 <= k < items.aliases.len() ==> match #[trigger] suite.aliases@[k] {
                None => tests_sign(self.generator, self.translator.setting(), &items.aliases[k], false),
                Some(test) => tests_sign(self.generator, self.translator.setting(), &items.aliases[k], true)
                    && self.is_sign_test(&items.aliases[k], test),
            }
        &&& suite.functions@.len() == items.foreign_functions.len()
        &&& forall|k: int|
            0 <= k < items.foreign_functions.len() ==> match #[trigger] suite.functions@[k] {
                None => allowed_for(
                    self.generator@.skip_fn_ptr_check,
                    items.foreign_functions[k].ident@,
                    false,
                ),
                Some(test) => allowed_for(
                    self.generator@.skip_fn_ptr_check,
                    items.foreign_functions[k].ident@,
                    true,
                ) && self.is_fn_test(&items.foreign_functions[k], test),
            }
        &&& suite.statics@.len() == items.foreign_statics.len()
        &&& forall|k: int|
            0 <= k < items.foreign_statics.len() ==> self.is_static_test(
                &items.foreign_statics[k],
                #[trigger] suite.statics@[k],
            )
    }
}

impl<'a> CTestTemplate<'a> {
    /// The name that the rules give to the struct or union `ident` as a C
    /// type. The name stands for itself.
    fn own_type(&self, ident: &str) -> (name: String)
        ensures
            self.names(ident@, kind_of(self.ffi_items@, ident@), name),
    {
        let kind = self.kind(ident);
        self.name_type(ident, kind)
    }

    /// The name that the rules give to the alias `ident` as a C type. The
    /// name goes by the table of primitive types.
    fn alias_type(&self, ident: &str) -> (name: String)
        ensures
            self.names(
                primitive_name(ident@),
                kind_of(self.ffi_items@, primitive_name(ident@)),
                name,
            ),
    {
        let c_type = self.translator.translate_primitive_type(ident);
        let kind = self.kind(c_type.as_str());
        self.name_type(c_type.as_str(), kind)
    }

    /// The test of the constant `c`, or why it has no type in C.
    pub fn const_test(&self, c: &Const) -> (out: Result<ConstTest, TranslationError>)
        ensures
            match out {
                Ok(test) => self.is_const_test(c, test),
                Err(e) => translated_type(c.ty@, self.translator.setting()) == Err::<
                    Seq<char>,
                    TranslationError,
                >(e),
            },
    {
        let c_type = match self.c_type(MapInput::Const(c)) {
            Ok(c_type) => c_type,
            Err(e) => { return Err(e); },
        };
        let c_ident = self.c_ident(MapInput::Const(c));
        proof {
            reveal_with_fuel(Ty::model, 2);
        }
        let by_content = match &c.ty {
            Ty::Reference { mutable, elem } => match &**elem {
                Ty::Path { ident, argument } => !*mutable && same_text(ident.as_str(), "str"),
                _ => false,
            },
            _ => false,
        };
        Ok(
            ConstTest {
                ident: c.ident.clone(),
                rust_fn: prefixed("const_", c.ident.as_str()),
                c_fn: prefixed("__test_const_", c.ident.as_str()),
                c_ident,
                c_type,
                by_content,
            },
        )
    }

    /// Whether a struct or union named `ident` with `fields` gets a test
    /// of its layout.
    fn decide_layout(&self, ident: &str, fields: &Vec<Field>) -> (test: bool)
        ensures
            tests_layout(self.generator, ident@, fields@, test),
    {
        if !self.generator.roundtrip_arrays && any_array(fields) {
            false
        } else {
            let test = should_roundtrip(self.generator, ident);
            assert(allowed_by(self.generator@.skip_roundtrip, ident, test));
            test
        }
    }

    /// The names of the layout test of an item named `ident`, with the
    /// type and the field tests given.
    fn layout_test(ident: &str, c_type: String, fields: Vec<Option<FieldTest>>) -> (test: LayoutTest)
        ensures
            Self::is_layout_of(ident@, test),
            test.c_type == c_type,
            test.fields == fields,
    {
        LayoutTest {
            ident: ident.to_string(),
            rust_fn: prefixed("size_align_", ident),
            c_size_fn: prefixed("__test_size_", ident),
            c_align_fn: prefixed("__test_align_", ident),
            c_type,
            fields,
        }
    }

    /// The test of the layout of the struct `s`, if it gets one.
    pub fn struct_test(&self, s: &Struct) -> (out: Option<LayoutTest>)
        ensures
            match out {
                None => tests_layout(self.generator, s.ident@, s.fields@, false),
                Some(test) => tests_layout(self.generator, s.ident@, s.fields@, true)
                    && self.is_struct_test(s, test),
            },
    {
        if !self.decide_layout(s.ident.as_str(), &s.fields) {
            return None;
        }
        let c_type = self.own_type(s.ident.as_str());
        let mut fields: Vec<Option<FieldTest>> = Vec::new();
        let mut k: usize = 0;
        while k < s.fields.len()
            invariant
                k <= s.fields.len(),
                fields@.len() == k,
                forall|j: int|
                    0 <= j < k ==> match #[trigger] fields@[j] {
                        None => skips_field(self.generator, s, &s.fields@[j], true),
                        Some(test) => skips_field(self.generator, s, &s.fields@[j], false)
                            && self.is_field_test(s, &s.fields@[j], test),
                    },
            decreases s.fields.len() - k,
        {
            let field = &s.fields[k];
            if should_skip_field(self.generator, s, field) {
                fields.push(None);
            } else {
                fields.push(
                    Some(
                        FieldTest {
                            ident: field.ident.clone(),
                            rust_fn: prefixed_member(
                                "offset_",
                                s.ident.as_str(),
                                field.ident.as_str(),
                            ),
                            c_fn: prefixed_member(
                                "__test_offset_",
                                s.ident.as_str(),
                                field.ident.as_str(),
                            ),
                            c_field: self.c_ident(MapInput::Field(s, field)),
                            volatile: self.generator.is_volatile(
                                VolatileItemKind::StructField(s, field),
                            ),
                        },
                    ),
                );
            }
            k = k + 1;
        }
        Some(Self::layout_test(s.ident.as_str(), c_type, fields))
    }

    /// The test of the layout of the union `u`, if it gets one.
    pub fn union_test(&self, u: &Union) -> (out: Option<LayoutTest>)
        ensures
            match out {
                None => tests_layout(self.generator, u.ident@, u.fields@, false),
                Some(test) => tests_layout(self.generator, u.ident@, u.fields@, true)
                    && self.is_union_test(u, test),
            },
    {
        if !self.decide_layout(u.ident.as_str(), &u.fields) {
            return None;
        }
        let c_type = self.own_type(u.ident.as_str());
        let mut fields: Vec<Option<FieldTest>> = Vec::new();
        let mut k: usize = 0;
        while k < u.fields.len()
            invariant
                k <= u.fields.len(),
                fields@.len() == k,
                forall|j: int|
                    0 <= j < k ==> match #[trigger] fields@[j] {
                        None => !u.fields@[j].public,
                        Some(test) => u.fields@[j].public && Self::is_union_field_test(
                            u,
                            &u.fields@[j],
                            test,
                        ),
                    },
            decreases u.fields.len() - k,
        {
            let field = &u.fields[k];
            if !field.public {
                fields.push(None);
            } else {
                fields.push(
                    Some(
                        FieldTest {
                            ident: field.ident.clone(),
                            rust_fn: prefixed_member(
                                "offset_",
                                u.ident.as_str(),
                                field.ident.as_str(),
                            ),
                            c_fn: prefixed_member(
                                "__test_offset_",
                                u.ident.as_str(),
                                field.ident.as_str(),
                            ),
                            c_field: field.ident.clone(),
                            volatile: false,
                        },
                    ),
                );
            }
            k = k + 1;
        }
        Some(Self::layout_test(u.ident.as_str(), c_type, fields))
    }

    /// The test of the signedness of `alias`, if it gets one.
    pub fn sign_test(&self, alias: &Type) -> (out: Option<SignTest>)
        ensures
            match out {
                None => tests_sign(self.generator, self.translator.setting(), alias, false),
                Some(test) => tests_sign(self.generator, self.translator.setting(), alias, true) && self.is_sign_test(
                    alias,
                    test,
                ),
            },
    {
        let sign = match &alias.ty {
            Ty::Path { ident, .. } => sign_of(
                self.translator.translate_named_type(ident.as_str()).as_str(),
            ),
            _ => None,
        };
        let signed = match sign {
            None => { return None; },
            Some(signed) => signed,
        };
        let ident = alias.ident.as_str();
        let test = should_test_sign(self.generator, ident);
        assert(allowed_by(self.generator@.skip_signededness, ident, test));
        if !test {
            return None;
        }
        let c_type = self.alias_type(alias.ident.as_str());
        Some(
            SignTest {
                ident: alias.ident.clone(),
                rust_fn: prefixed("sign_", alias.ident.as_str()),
                c_fn: prefixed("__test_signed_", alias.ident.as_str()),
                c_type,
                signed,
            },
        )
    }

    /// The test of the signature of `function`, if it gets one.
    pub fn fn_test(&self, function: &Fn) -> (out: Option<FnTest>)
        ensures
            match out {
                None => allowed_for(self.generator@.skip_fn_ptr_check, function.ident@, false),
                Some(test) => allowed_for(self.generator@.skip_fn_ptr_check, function.ident@, true)
                    && self.is_fn_test(function, test),
            },
    {
        let ident = function.ident.as_str();
        let test = should_test_fn_ptr(self.generator, ident);
        assert(allowed_by(self.generator@.skip_fn_ptr_check, ident, test));
        if !test {
            return None;
        }
        let mut arguments: Vec<Argument> = Vec::new();
        let mut k: usize = 0;
        while k < function.parameters.len()
            invariant
                k <= function.parameters.len(),
                arguments@.len() == k,
                forall|j: int| 0 <= j < k ==> self.is_argument(function, j, #[trigger] arguments@[j]),
            decreases function.parameters.len() - k,
        {
            let parameter = &function.parameters[k];
            arguments.push(
                Argument {
                    ident: parameter.ident.clone(),
                    array: self.generator.is_array_arg(function, parameter),
                    volatile: self.generator.is_volatile(
                        VolatileItemKind::FnArgument(function, parameter),
                    ),
                },
            );
            k = k + 1;
        }
        Some(
            FnTest {
                ident: function.ident.clone(),
                rust_fn: prefixed("fn_", function.ident.as_str()),
                c_fn: prefixed("__test_fn_", function.ident.as_str()),
                c_ident: self.c_ident(MapInput::Fn(function)),
                arguments,
                volatile_return: self.generator.is_volatile(
                    VolatileItemKind::FnReturnType(function),
                ),
            },
        )
    }

    /// The test of the static `item`, or why it has no type in C.
    pub fn static_test(&self, item: &Static) -> (out: Result<StaticTest, TranslationError>)
        ensures
            match out {
                Ok(test) => self.is_static_test(item, test),
                Err(e) => translated_type(item.ty@, self.translator.setting()) == Err::<
                    Seq<char>,
                    TranslationError,
                >(e),
            },
    {
        let c_type = match self.c_type(MapInput::Static(item)) {
            Ok(c_type) => c_type,
            Err(e) => { return Err(e); },
        };
        Ok(
            StaticTest {
                ident: item.ident.clone(),
                rust_fn: prefixed("static_", item.ident.as_str()),
                c_fn: prefixed("__test_static_", item.ident.as_str()),
                c_ident: self.c_ident(MapInput::Static(item)),
                c_type,
                volatile: self.generator.is_volatile(VolatileItemKind::Static(item)),
            },
        )
    }
}

impl<'a> CTestTemplate<'a> {
    /// The constant at `k` is the first whose type has no translation,
    /// and `e` says why.
    pub open spec fn first_untyped(&self, k: int, e: TranslationError) -> bool {
        let constants = self.ffi_items@.constants;
        &&& 0 <= k < constants.len()
        &&& translated_type(constants[k].ty@, self.translator.setting()) == Err::<
            Seq<char>,
            TranslationError,
        >(e)
        &&& forall|j: int|
            0 <= j < k ==> translated_type(
                (#[trigger] constants[j]).ty@,
                self.translator.setting(),
            ) is Ok
    }

    /// The static at `k` is the first whose type has no translation, and
    /// `e` says why.
    pub open spec fn first_untyped_static(&self, k: int, e: TranslationError) -> bool {
        let statics = self.ffi_items@.foreign_statics;
        &&& 0 <= k < statics.len()
        &&& translated_type(statics[k].ty@, self.translator.setting()) == Err::<
            Seq<char>,
            TranslationError,
        >(e)
        &&& forall|j: int|
            0 <= j < k ==> translated_type(
                (#[trigger] statics[j]).ty@,
                self.translator.setting(),
            ) is Ok
    }

    /// Every constant has a type with a translation.
    pub open spec fn constants_typed(&self) -> bool {
        forall|j: int|
            0 <= j < self.ffi_items@.constants.len() ==> translated_type(
                (#[trigger] self.ffi_items@.constants[j]).ty@,
                self.translator.setting(),
            ) is Ok
    }

    /// `e` says why the first declaration whose type has no translation
    /// has none; the constants come before the statics.
    pub open spec fn untyped(&self, e: TranslationError) -> bool {
        ||| exists|k: int| #[trigger] self.first_untyped(k, e)
        ||| self.constants_typed() && exists|k: int| #[trigger] self.first_untyped_static(k, e)
    }

    /// `error` reports that the C side cannot be rendered because of `e`.
    pub open spec fn reports(&self, error: GenerationError, e: TranslationError) -> bool {
        error matches GenerationError::TemplateRender(side, reason) && side@
            == self.generator@.language.spec_display_name() && reason@ == e.description()
    }

    /// The tests of every declaration.
    ///
    /// They are had unless the type of a constant or of a static has no
    /// translation; the error then names the language of the C side and
    /// says what is wrong with the first such declaration.
    pub fn test_suite(&self) -> (out: Result<TestSuite, GenerationError>)
        ensures
            match out {
                Ok(suite) => self.is_suite(suite),
                Err(error) => exists|e: TranslationError| #[trigger]
                    self.untyped(e) && self.reports(error, e),
            },
    {
        let items = self.ffi_items;
        let mut constants: Vec<ConstTest> = Vec::new();
        let mut k: usize = 0;
        while k < items.constants.len()
            invariant
                items == self.ffi_items,
                k <= items.constants.len(),
                constants@.len() == k,
                forall|j: int|
                    0 <= j < k ==> self.is_const_test(
                        &items@.constants[j],
                        #[trigger] constants@[j],
                    ),
            decreases items.constants.len() - k,
        {
            match self.const_test(&items.constants[k]) {
                Ok(test) => constants.push(test),
                Err(e) => {
                    let error = GenerationError::TemplateRender(
                        self.generator.language.display_name().to_string(),
                        e.message().to_string(),
                    );
                    assert forall|j: int| 0 <= j < k implies translated_type(
                        (#[trigger] items@.constants[j]).ty@,
                        self.translator.setting(),
                    ) is Ok by {
                        assert(self.is_const_test(&items@.constants[j], constants@[j]));
                    }
                    assert(self.first_untyped(k as int, e));
                    assert(self.untyped(e));
                    return Err(error);
                },
            }
            k = k + 1;
        }
        assert(self.constants_typed()) by {
            assert forall|j: int| 0 <= j < items@.constants.len() implies translated_type(
                (#[trigger] items@.constants[j]).ty@,
                self.translator.setting(),
            ) is Ok by {
                assert(self.is_const_test(&items@.constants[j], constants@[j]));
            }
        }
        let mut statics: Vec<StaticTest> = Vec::new();
        let mut k: usize = 0;
        while k < items.foreign_statics.len()
            invariant
                items == self.ffi_items,
                self.constants_typed(),
                k <= items.foreign_statics.len(),
                statics@.len() == k,
                forall|j: int|
                    0 <= j < k ==> self.is_static_test(
                        &items@.foreign_statics[j],
                        #[trigger] statics@[j],
                    ),
            decreases items.foreign_statics.len() - k,
        {
            match self.static_test(&items.foreign_statics[k]) {
                Ok(test) => statics.push(test),
                Err(e) => {
                    let error = GenerationError::TemplateRender(
                        self.generator.language.display_name().to_string(),
                        e.message().to_string(),
                    );
                    assert forall|j: int| 0 <= j < k implies translated_type(
                        (#[trigger] items@.foreign_statics[j]).ty@,
                        self.translator.setting(),
                    ) is Ok by {
                        assert(self.is_static_test(&items@.foreign_statics[j], statics@[j]));
                    }
                    assert(self.first_untyped_static(k as int, e));
                    assert(self.untyped(e));
                    return Err(error);
                },
            }
            k = k + 1;
        }
        let mut structs: Vec<Option<LayoutTest>> = Vec::new();
        let mut k: usize = 0;
        while k < items.structs.len()
            invariant
                items == self.ffi_items,
                k <= items.structs.len(),
                structs@.len() == k,
                forall|j: int|
                    0 <= j < k ==> match #[trigger] structs@[j] {
                        None => tests_layout(
                            self.generator,
                            items@.structs[j].ident@,
                            items@.structs[j].fields@,
                            false,
                        ),
                        Some(test) => tests_layout(
                            self.generator,
                            items@.structs[j].ident@,
                            items@.structs[j].fields@,
                            true,
                        ) && self.is_struct_test(&items@.structs[j], test),
                    },
            decreases items.structs.len() - k,
        {
            structs.push(self.struct_test(&items.structs[k]));
            k = k + 1;
        }
        let mut unions: Vec<Option<LayoutTest>> = Vec::new();
        let mut k: usize = 0;
        while k < items.unions.len()
            invariant
                items == self.ffi_items,
                k <= items.unions.len(),
                unions@.len() == k,
                forall|j: int|
                    0 <= j < k ==> match #[trigger] unions@[j] {
                        None => tests_layout(
                            self.generator,
                            items@.unions[j].ident@,
                            items@.unions[j].fields@,
                            false,
                        ),
                        Some(test) => tests_layout(
                            self.generator,
                            items@.unions[j].ident@,
                            items@.unions[j].fields@,
                            true,
                        ) && self.is_union_test(&items@.unions[j], test),
                    },
            decreases items.unions.len() - k,
        {
            unions.push(self.union_test(&items.unions[k]));
            k = k + 1;
        }
        let mut aliases: Vec<Option<SignTest>> = Vec::new();
        let mut k: usize = 0;
        while k < items.aliases.len()
            invariant
                items == self.ffi_items,
                k <= items.aliases.len(),
                aliases@.len() == k,
                forall|j: int|
                    0 <= j < k ==> match #[trigger] aliases@[j] {
                        None => tests_sign(self.generator, self.translator.setting(), &items@.aliases[j], false),
                        Some(test) => tests_sign(self.generator, self.translator.setting(), &items@.aliases[j], true)
                            && self.is_sign_test(&items@.aliases[j], test),
                    },
            decreases items.aliases.len() - k,
        {
            aliases.push(self.sign_test(&items.aliases[k]));
            k = k + 1;
        }
        let mut functions: Vec<Option<FnTest>> = Vec::new();
        let mut k: usize = 0;
        while k < items.foreign_functions.len()
            invariant
                items == self.ffi_items,
                k <= items.foreign_functions.len(),
                functions@.len() == k,
                forall|j: int|
                    0 <= j < k ==> match #[trigger] functions@[j] {
                        None => allowed_for(
                            self.generator@.skip_fn_ptr_check,
                            items@.foreign_functions[j].ident@,
                            false,
                        ),
                        Some(test) => allowed_for(
                            self.generator@.skip_fn_ptr_check,
                            items@.foreign_functions[j].ident@,
                            true,
                        ) && self.is_fn_test(&items@.foreign_functions[j], test),
                    },
            decreases items.foreign_functions.len() - k,
        {
            functions.push(self.fn_test(&items.foreign_functions[k]));
            k = k + 1;
        }
        Ok(TestSuite { constants, structs, unions, aliases, functions, statics })
    }
}

/// What is generated from a declaration tree.
#[derive(Debug)]
pub struct Generated {
    /// The declarations that are tested.
    pub items: FfiItems,
    /// The declarations that the skip rules left out.
    pub skipped: FfiItems,
    /// The tests.
    pub suite: TestSuite,
}

impl TestGenerator {
    /// `generated` may be what is generated from `file`: its declarations
    /// are those of the tree without those that the skip rules leave out,
    /// and its tests are the tests of these.
    pub open spec fn generates(&self, file: Seq<Item>, generated: Generated) -> bool {
        &&& self@.filters(Declared::empty().with_items(file), generated.items@, generated.skipped@)
        &&& exists|template: CTestTemplate<'_>|
            {
                &&& template.ffi_items@ == generated.items@
                &&& template.generator == self
                &&& template.translator.setting() == setting_of(self@.target, generated.items@)
                &&& #[trigger] template.is_suite(generated.suite)
            }
    }

    /// `error` may be why nothing is generated from `file`: among the
    /// constants and statics that the skip rules keep, one has a type
    /// without translation.
    pub open spec fn fails_on(&self, file: Seq<Item>, error: GenerationError) -> bool {
        exists|template: CTestTemplate<'_>, skipped: Declared, e: TranslationError|
            #![trigger
                self@.filters(Declared::empty().with_items(file), template.ffi_items@, skipped),
                template.untyped(e)]
            {
                &&& self@.filters(Declared::empty().with_items(file), template.ffi_items@, skipped)
                &&& template.generator == self
                &&& template.translator.setting() == setting_of(self@.target, template.ffi_items@)
                &&& template.untyped(e)
                &&& template.reports(error, e)
            }
    }

    /// Generates the tests of a declaration tree: collects what the tree
    /// declares, leaves out what the skip rules leave out, and makes the
    /// tests of the rest.
    pub fn generate_tests(&self, file: Vec<Item>) -> (out: Result<Generated, GenerationError>)
        ensures
            match out {
                Ok(generated) => self.generates(file@, generated),
                Err(error) => self.fails_on(file@, error),
            },
    {
        let mut items = FfiItems::new();
        items.visit_file(file);
        let skipped = self.filter_ffi_items(&mut items);
        let ghost witness;
        let suite = {
            let template = CTestTemplate::new(&items, self);
            proof {
                witness = template;
            }
            match template.test_suite() {
                Ok(suite) => suite,
                Err(error) => {
                    assert(self.fails_on(file@, error)) by {
                        let e = choose|e: TranslationError| #[trigger]
                            template.untyped(e) && template.reports(error, e);
                        assert(template.untyped(e) && template.reports(error, e));
                    }
                    return Err(error);
                },
            }
        };
        let generated = Generated { items, skipped, suite };
        assert(witness.ffi_items@ == generated.items@ && witness.generator == self
            && witness.translator.setting() == setting_of(self@.target, generated.items@)
            && witness.is_suite(generated.suite));
        Ok(generated)
    }

    /// Generates the tests of a crate from its expanded text.
    ///
    /// The text is parsed, `lower` turns the tree into items, and the
    /// tests of these are generated. A text that is not a file of Rust
    /// code is an error, and `lower` is then not called.
    pub fn generate(
        &self,
        expanded: String,
        lower: impl FnOnce(syn::File) -> Vec<Item>,
    ) -> (out: Result<Generated, GenerationError>)
        requires
            forall|file: syn::File| call_requires(lower, (file,)),
        ensures
            !is_rust_file(expanded@) ==> (out matches Err(GenerationError::RustSyntax(source, _))
                && source@ == expanded@),
            is_rust_file(expanded@) ==> exists|file: syn::File, items: Vec<Item>| #[trigger]
                call_ensures(lower, (file,), items) && match out {
                    Ok(generated) => self.generates(items@, generated),
                    Err(error) => self.fails_on(items@, error),
                },
    {
        let file = match parse_expanded(expanded) {
            Ok(file) => file,
            Err(error) => { return Err(error); },
        };
        let items = lower(file);
        assert(call_ensures(lower, (file,), items));
        self.generate_tests(items)
    }
}

/// The tests of a struct's fields follow its declaration: the test at a
/// position is of the field declared at that position, which is public,
/// and both of its routines bear the names of the struct and the field.
/// So where two fields change places in the declaration, their tests
/// change places with them.
pub proof fn lemma_field_tests_follow_declaration(
    template: CTestTemplate<'_>,
    s: &Struct,
    tests: Seq<Option<FieldTest>>,
    k: int,
)
    requires
        template.are_field_tests(s, tests),
        0 <= k < s.fields@.len(),
    ensures
        tests.len() == s.fields@.len(),
        tests[k] matches Some(test) ==> {
            &&& s.fields@[k].public
            &&& test.ident@ == s.fields@[k].ident@
            &&& test.rust_fn@ == "offset_"@ + s.ident@ + "_"@ + s.fields@[k].ident@
            &&& test.c_fn@ == "__test_offset_"@ + s.ident@ + "_"@ + s.fields@[k].ident@
        },
        !s.fields@[k].public ==> tests[k] is None,
{
    match tests[k] {
        Some(test) => {
            assert(skips_field(template.generator, s, &s.fields@[k], false));
        },
        None => {},
    }
    if !s.fields@[k].public {
        if tests[k] is Some {
            assert(skips_field(template.generator, s, &s.fields@[k], false));
        }
    }
}

/// Where the fields of a struct are declared in another order, their
/// tests stand in that order: if the field at `k` of `permuted` is the
/// field at `p` of `s`, a struct of the same name, then the test at `k`
/// of the tests of `permuted` bears the names of that field of `s`.
pub proof fn lemma_permuted_fields_permute_tests(
    template: CTestTemplate<'_>,
    s: &Struct,
    permuted: &Struct,
    tests: Seq<Option<FieldTest>>,
    k: int,
    p: int,
)
    requires
        template.are_field_tests(permuted, tests),
        permuted.ident@ == s.ident@,
        0 <= k < permuted.fields@.len(),
        0 <= p < s.fields@.len(),
        permuted.fields@[k] == s.fields@[p],
    ensures
        tests[k] matches Some(test) ==> {
            &&& test.ident@ == s.fields@[p].ident@
            &&& test.rust_fn@ == "offset_"@ + s.ident@ + "_"@ + s.fields@[p].ident@
            &&& test.c_fn@ == "__test_offset_"@ + s.ident@ + "_"@ + s.fields@[p].ident@
        },
{
    lemma_field_tests_follow_declaration(template, permuted, tests, k);
}

/// A struct or union without an array among its fields has its layout
/// tested where no round-trip rule is set.
pub proof fn lemma_plain_layouts_are_tested(
    generator: &TestGenerator,
    ident: Seq<char>,
    fields: Seq<Field>,
    test: bool,
)
    requires
        !has_array_field(fields),
        generator@.skip_roundtrip is None,
        tests_layout(generator, ident, fields, test),
    ensures
        test,
{
}

/// A struct or union with an array among its fields has no test of its
/// layout unless the generator is set to test those.
pub proof fn lemma_array_layouts_are_not_tested(
    generator: &TestGenerator,
    ident: Seq<char>,
    fields: Seq<Field>,
    test: bool,
)
    requires
        has_array_field(fields),
        !generator@.roundtrip_arrays,
        tests_layout(generator, ident, fields, test),
    ensures
        !test,
{
}

/// The Rust functions of the field tests in `fields`, in order.
pub open spec fn field_functions(fields: Seq<Option<FieldTest>>) -> Seq<Seq<char>>
    decreases fields.len(),
{
    if fields.len() == 0 {
        Seq::empty()
    } else {
        let front = field_functions(fields.drop_last());
        match fields.last() {
            Some(test) => front.push(test.rust_fn@),
            None => front,
        }
    }
}

/// The Rust functions of the layout tests in `tests`, in order: for each,
/// the function that compares size and alignment, then those of its
/// fields.
pub open spec fn layout_functions(tests: Seq<Option<LayoutTest>>) -> Seq<Seq<char>>
    decreases tests.len(),
{
    if tests.len() == 0 {
        Seq::empty()
    } else {
        let front = layout_functions(tests.drop_last());
        match tests.last() {
            Some(test) => front.push(test.rust_fn@) + field_functions(test.fields@),
            None => front,
        }
    }
}

/// The Rust functions of the signedness tests in `tests`, in order.
pub open spec fn sign_functions(tests: Seq<Option<SignTest>>) -> Seq<Seq<char>>
    decreases tests.len(),
{
    if tests.len() == 0 {
        Seq::empty()
    } else {
        let front = sign_functions(tests.drop_last());
        match tests.last() {
            Some(test) => front.push(test.rust_fn@),
            None => front,
        }
    }
}

/// The Rust functions of the function tests in `tests`, in order.
pub open spec fn fn_functions(tests: Seq<Option<FnTest>>) -> Seq<Seq<char>>
    decreases tests.len(),
{
    if tests.len() == 0 {
        Seq::empty()
    } else {
        let front = fn_functions(tests.drop_last());
        match tests.last() {
            Some(test) => front.push(test.rust_fn@),
            None => front,
        }
    }
}

/// Every Rust function of `suite`, in the order in which the tests are
/// run: those of the constants, of the structs, of the unions, of the
/// aliases, of the functions and of the statics.
pub open spec fn rust_functions(suite: TestSuite) -> Seq<Seq<char>> {
    Seq::new(suite.constants@.len(), |k: int| suite.constants@[k].rust_fn@) + layout_functions(
        suite.structs@,
    ) + layout_functions(suite.unions@) + sign_functions(suite.aliases@) + fn_functions(
        suite.functions@,
    ) + Seq::new(suite.statics@.len(), |k: int| suite.statics@[k].rust_fn@)
}

/// Adds the Rust functions of the layout tests in `tests` to `calls`.
fn push_layout_functions(calls: &mut Vec<String>, tests: &Vec<Option<LayoutTest>>)
    ensures
        views(final(calls)@) == views(old(calls)@) + layout_functions(tests@),
{
    let ghost before = views(calls@);
    let mut k: usize = 0;
    assert(tests@.take(0) =~= Seq::empty());
    assert(views(calls@) =~= before + layout_functions(tests@.take(0)));
    while k < tests.len()
        invariant
            k <= tests.len(),
            views(calls@) == before + layout_functions(tests@.take(k as int)),
        decreases tests.len() - k,
    {
        assert(tests@.take(k + 1).drop_last() =~= tests@.take(k as int));
        match &tests[k] {
            None => {},
            Some(test) => {
                let ghost front = views(calls@);
                calls.push(test.rust_fn.clone());
                assert(views(calls@) =~= front.push(test.rust_fn@));
                let ghost head = views(calls@);
                let mut j: usize = 0;
                assert(test.fields@.take(0) =~= Seq::empty());
                assert(views(calls@) =~= head + field_functions(test.fields@.take(0)));
                while j < test.fields.len()
                    invariant
                        j <= test.fields.len(),
                        views(calls@) == head + field_functions(test.fields@.take(j as int)),
                    decreases test.fields.len() - j,
                {
                    assert(test.fields@.take(j + 1).drop_last() =~= test.fields@.take(j as int));
                    match &test.fields[j] {
                        None => {},
                        Some(field) => {
                            let ghost so_far = views(calls@);
                            calls.push(field.rust_fn.clone());
                            assert(views(calls@) =~= so_far.push(field.rust_fn@));
                        },
                    }
                    j = j + 1;
                }
                assert(test.fields@.take(j as int) =~= test.fields@);
                assert(views(calls@) =~= before + (layout_functions(tests@.take(k as int)).push(
                    test.rust_fn@,
                ) + field_functions(test.fields@)));
            },
        }
        k = k + 1;
    }
    assert(tests@.take(k as int) =~= tests@);
}

impl<'a> RustTestTemplate<'a> {
    /// The Rust functions that the entry point of the Rust side calls:
    /// every function of `suite`, each once, whether or not one before it
    /// failed.
    pub fn run_all(&self, suite: &TestSuite) -> (calls: Vec<String>)
        ensures
            views(calls@) == rust_functions(*suite),
    {
        let mut calls: Vec<String> = Vec::new();
        let mut k: usize = 0;
        assert(views(calls@) =~= Seq::new(0, |k: int| suite.constants@[k].rust_fn@));
        while k < suite.constants.len()
            invariant
                k <= suite.constants.len(),
                views(calls@) == Seq::new(k as nat, |k: int| suite.constants@[k].rust_fn@),
            decreases suite.constants.len() - k,
        {
            let ghost front = views(calls@);
            calls.push(suite.constants[k].rust_fn.clone());
            assert(views(calls@) =~= front.push(suite.constants@[k as int].rust_fn@));
            assert(views(calls@) =~= Seq::new(
                (k + 1) as nat,
                |k: int| suite.constants@[k].rust_fn@,
            ));
            k = k + 1;
        }
        push_layout_functions(&mut calls, &suite.structs);
        push_layout_functions(&mut calls, &suite.unions);
        let ghost head = views(calls@);
        let mut k: usize = 0;
        assert(suite.aliases@.take(0) =~= Seq::empty());
        assert(views(calls@) =~= head + sign_functions(suite.aliases@.take(0)));
        while k < suite.aliases.len()
            invariant
                k <= suite.aliases.len(),
                views(calls@) == head + sign_functions(suite.aliases@.take(k as int)),
            decreases suite.aliases.len() - k,
        {
            assert(suite.aliases@.take(k + 1).drop_last() =~= suite.aliases@.take(k as int));
            match &suite.aliases[k] {
                None => {},
                Some(test) => {
                    let ghost front = views(calls@);
                    calls.push(test.rust_fn.clone());
                    assert(views(calls@) =~= front.push(test.rust_fn@));
                },
            }
            k = k + 1;
        }
        assert(suite.aliases@.take(k as int) =~= suite.aliases@);
        let ghost head = views(calls@);
        let mut k: usize = 0;
        assert(suite.functions@.take(0) =~= Seq::empty());
        assert(views(calls@) =~= head + fn_functions(suite.functions@.take(0)));
        while k < suite.functions.len()
            invariant
                k <= suite.functions.len(),
                views(calls@) == head + fn_functions(suite.functions@.take(k as int)),
            decreases suite.functions.len() - k,
        {
            assert(suite.functions@.take(k + 1).drop_last() =~= suite.functions@.take(k as int));
            match &suite.functions[k] {
                None => {},
                Some(test) => {
                    let ghost front = views(calls@);
                    calls.push(test.rust_fn.clone());
                    assert(views(calls@) =~= front.push(test.rust_fn@));
                },
            }
            k = k + 1;
        }
        assert(suite.functions@.take(k as int) =~= suite.functions@);
        let ghost head = views(calls@);
        let mut k: usize = 0;
        assert(views(calls@) =~= head + Seq::new(0, |k: int| suite.statics@[k].rust_fn@));
        while k < suite.statics.len()
            invariant
                k <= suite.statics.len(),
                views(calls@) == head + Seq::new(k as nat, |k: int| suite.statics@[k].rust_fn@),
            decreases suite.statics.len() - k,
        {
            let ghost front = views(calls@);
            calls.push(suite.statics[k].rust_fn.clone());
            assert(views(calls@) =~= front.push(suite.statics@[k as int].rust_fn@));
            assert(views(calls@) =~= head + Seq::new(
                (k + 1) as nat,
                |k: int| suite.statics@[k].rust_fn@,
            ));
            k = k + 1;
        }
        calls
    }
}

/// The test of every constant is run: its Rust function is among those
/// that the entry point calls.
pub proof fn lemma_every_constant_test_is_run(suite: TestSuite, k: int)
    requires
        0 <= k < suite.constants@.len(),
    ensures
        rust_functions(suite).contains(suite.constants@[k].rust_fn@),
{
    let constants = Seq::new(suite.constants@.len(), |k: int| suite.constants@[k].rust_fn@);
    assert(rust_functions(suite)[k] == constants[k]);
}

/// No skip rule of `generator` can leave `field` of `s` out.
pub open spec fn field_is_kept(generator: &TestGenerator, s: &Struct, field: &Field) -> bool {
    forall|i: int|
        0 <= i < generator@.skips.len() ==> !(#[trigger] generator@.skips[i]).decides(
            MapInput::Field(s, field),
            true,
        )
}

/// The round-trip rule of `generator`, if one is set, cannot leave the
/// item named `ident` out.
pub open spec fn layout_is_kept(generator: &TestGenerator, ident: Seq<char>) -> bool {
    generator@.skip_roundtrip matches Some(rule) ==> forall|text: &str|
        text@ == ident ==> !(#[trigger] rule.decides(text, true))
}

/// Where the tests of the fields of `s` are `tests`, a field that is not
/// public has none, and a public field that no skip rule can leave out
/// has one.
pub proof fn lemma_public_fields_are_tested(
    template: CTestTemplate<'_>,
    s: &Struct,
    tests: Seq<Option<FieldTest>>,
    k: int,
)
    requires
        template.are_field_tests(s, tests),
        0 <= k < s.fields@.len(),
    ensures
        !s.fields@[k].public ==> tests[k] is None,
        s.fields@[k].public && field_is_kept(template.generator, s, &s.fields@[k]) ==> tests[k]
            is Some,
{
    lemma_field_tests_follow_declaration(template, s, tests, k);
    if s.fields@[k].public && field_is_kept(template.generator, s, &s.fields@[k]) && tests[k]
        is None {
        assert(skips_field(template.generator, s, &s.fields@[k], true));
        let answer = choose|answer: bool| #[trigger]
            template.generator@.skip_outcome(MapInput::Field(s, &s.fields@[k]), answer) && true
                == (answer || !s.fields@[k].public);
        assert(template.generator@.skip_outcome(MapInput::Field(s, &s.fields@[k]), true));
    }
}

/// What is generated for a struct that is kept: where it has no array
/// among its fields and the round-trip rule cannot leave it out, it has
/// one test of its size and alignment, which bears its name; no test of
/// the offset of a field that is not public; and for every public field
/// that no skip rule can leave out one test of its offset, which bears
/// the names of the struct and the field.
pub proof fn lemma_generated_layout(
    generator: &TestGenerator,
    file: Seq<Item>,
    generated: Generated,
    k: int,
    j: int,
)
    requires
        generator.generates(file, generated),
        0 <= k < generated.items@.structs.len(),
        0 <= j < generated.items@.structs[k].fields@.len(),
        !has_array_field(generated.items@.structs[k].fields@),
        layout_is_kept(generator, generated.items@.structs[k].ident@),
    ensures
        ({
            let s = generated.items@.structs[k];
            let field = s.fields@[j];
            &&& generated.suite.structs@.len() == generated.items@.structs.len()
            &&& generated.suite.structs@[k] matches Some(test)
            &&& test.ident@ == s.ident@
            &&& test.rust_fn@ == "size_align_"@ + s.ident@
            &&& test.c_size_fn@ == "__test_size_"@ + s.ident@
            &&& test.c_align_fn@ == "__test_align_"@ + s.ident@
            &&& test.fields@.len() == s.fields@.len()
            &&& !field.public ==> test.fields@[j] is None
            &&& field.public && field_is_kept(generator, &s, &field) ==> test.fields@[j] is Some
            &&& test.fields@[j] matches Some(offset) ==> {
                &&& field.public
                &&& offset.ident@ == field.ident@
                &&& offset.rust_fn@ == "offset_"@ + s.ident@ + "_"@ + field.ident@
                &&& offset.c_fn@ == "__test_offset_"@ + s.ident@ + "_"@ + field.ident@
            }
        }),
{
    let template = choose|template: CTestTemplate<'_>|
        {
            &&& template.ffi_items@ == generated.items@
            &&& template.generator == generator
            &&& template.translator.setting() == setting_of(generator@.target, generated.items@)
            &&& #[trigger] template.is_suite(generated.suite)
        };
    let s = generated.items@.structs[k];
    assert(template.ffi_items@.structs[k] == s);
    match generated.suite.structs@[k] {
        None => {
            assert(tests_layout(generator, s.ident@, s.fields@, false));
        },
        Some(test) => {
            assert(template.is_struct_test(&s, test));
            lemma_field_tests_follow_declaration(template, &s, test.fields@, j);
            lemma_public_fields_are_tested(template, &s, test.fields@, j);
        },
    }
}

/// Where the fields of a struct are declared in another order, the same
/// fields are tested: if the field at `k` of `permuted` is the field at
/// `p` of `s`, a struct of the same name, and no skip rule can leave the
/// field out of either, then the field has a test among the tests of the
/// one exactly if it has one among those of the other, and the two tests
/// bear the same names.
pub proof fn lemma_permuted_fields_have_the_same_tests(
    template: CTestTemplate<'_>,
    s: &Struct,
    tests: Seq<Option<FieldTest>>,
    permuted: &Struct,
    permuted_tests: Seq<Option<FieldTest>>,
    k: int,
    p: int,
)
    requires
        template.are_field_tests(s, tests),
        template.are_field_tests(permuted, permuted_tests),
        permuted.ident@ == s.ident@,
        0 <= k < permuted.fields@.len(),
        0 <= p < s.fields@.len(),
        permuted.fields@[k] == s.fields@[p],
        field_is_kept(template.generator, s, &s.fields@[p]),
        field_is_kept(template.generator, permuted, &permuted.fields@[k]),
    ensures
        permuted_tests[k] is Some <==> tests[p] is Some,
        permuted_tests[k] matches Some(second) ==> tests[p] matches Some(first) && {
            &&& second.ident@ == first.ident@
            &&& second.rust_fn@ == first.rust_fn@
            &&& second.c_fn@ == first.c_fn@
        },
{
    lemma_field_tests_follow_declaration(template, s, tests, p);
    lemma_field_tests_follow_declaration(template, permuted, permuted_tests, k);
    lemma_public_fields_are_tested(template, s, tests, p);
    lemma_public_fields_are_tested(template, permuted, permuted_tests, k);
}

} // verus!
