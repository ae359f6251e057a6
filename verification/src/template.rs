//! What the two test programs are stitched from: the C names and C types
//! of items, and the decisions on which tests an item gets.

use crate::ast::{Expr, ExprView, Field, Struct, Ty, TyView};
use crate::ffi_items::{lemma_names_are_of_declarations, Declared, FfiItems};
use crate::generator::TestGenerator;
use crate::rules::{MapInput, NameRule, TyKind};
use crate::text::{join, joined, same_text, views};
use crate::translator::{
    argument_list, primitive_name, signature_parts, text_of, translate_abi, translate_expr,
    translated_abi, translated_expr, translated_type, Setting, TranslationError, Translator,
};
use crate::VolatileItemKind;
use vstd::prelude::*;
use vstd::string::StringExecFns;

verus! {

/// What `name` refers to among the declarations: a struct, a union, or
/// neither.
pub open spec fn kind_of(items: Declared, name: Seq<char>) -> TyKind {
    if items.has_struct(name) {
        TyKind::Struct
    } else if items.has_union(name) {
        TyKind::Union
    } else {
        TyKind::Other
    }
}

/// The name under which a type is looked up among the declarations: that
/// of a named type, and of a pointer to one. No other shape has one.
pub open spec fn lookup_name(ty: TyView) -> Option<Seq<char>> {
    match ty {
        TyView::Path { ident, .. } => Some(ident),
        TyView::Ptr { elem, .. } => match *elem {
            TyView::Path { ident, .. } => Some(ident),
            _ => None,
        },
        _ => None,
    }
}

/// What a translator of the tests of `items` for `target` goes by: the
/// target, and the names of the structs and unions of `items`.
pub open spec fn setting_of(target: Option<Seq<char>>, items: Declared) -> Setting {
    Setting { target, structs: items.struct_names(), unions: items.union_names() }
}

/// The C type of an item before any rule renames it: the translation of
/// its declared type for a constant, a field, a field's type and a static;
/// its own name for a struct; and for an alias the name that the table of
/// primitive types gives to its own name. A function and a type name have
/// none.
pub open spec fn item_type(item: MapInput<'_>, setting: Setting) -> Result<
    Seq<char>,
    TranslationError,
> {
    match item {
        MapInput::Const(constant) => translated_type(constant.ty@, setting),
        MapInput::Field(_, field) => translated_type(field.ty@, setting),
        MapInput::FieldType(_, field) => translated_type(field.ty@, setting),
        MapInput::Static(item) => translated_type(item.ty@, setting),
        MapInput::Alias(alias) => Ok(primitive_name(alias.ident@)),
        MapInput::Struct(s) => Ok(s.ident@),
        MapInput::Fn(_) => Err(TranslationError::UnsupportedItem),
        MapInput::Type(_, _) => Err(TranslationError::UnsupportedItem),
    }
}

/// The C side of the generated testing suite.
pub struct CTestTemplate<'a> {
    pub translator: Translator,
    pub ffi_items: &'a FfiItems,
    pub generator: &'a TestGenerator,
}

/// The Rust side of the generated testing suite.
pub struct RustTestTemplate<'a> {
    pub ffi_items: &'a FfiItems,
    pub translator: Translator,
    pub generator: &'a TestGenerator,
}

impl<'a> RustTestTemplate<'a> {
    /// The Rust side of the tests of `ffi_items`, as `generator` configures
    /// them. Its translator knows the structs and unions of `ffi_items`.
    pub fn new(ffi_items: &'a FfiItems, generator: &'a TestGenerator) -> (template: Self)
        ensures
            template.ffi_items == ffi_items,
            template.generator == generator,
            template.translator.setting() == setting_of(generator@.target, ffi_items@),
    {
        let translator = Translator::for_declarations(
            generator.target_str(),
            ffi_items.struct_names(),
            ffi_items.union_names(),
        );
        RustTestTemplate { ffi_items, translator, generator }
    }
}

impl<'a> CTestTemplate<'a> {
    /// The C side of the tests of `ffi_items`, as `generator` configures
    /// them. Its translator knows the structs and unions of `ffi_items`.
    pub fn new(ffi_items: &'a FfiItems, generator: &'a TestGenerator) -> (template: Self)
        ensures
            template.ffi_items == ffi_items,
            template.generator == generator,
            template.translator.setting() == setting_of(generator@.target, ffi_items@),
    {
        let translator = Translator::for_declarations(
            generator.target_str(),
            ffi_items.struct_names(),
            ffi_items.union_names(),
        );
        CTestTemplate { translator, ffi_items, generator }
    }

    /// `name` may be the name that the rules give to the C type `c_type`,
    /// taken as a type of kind `kind`.
    pub open spec fn names(&self, c_type: Seq<char>, kind: TyKind, name: String) -> bool {
        exists|text: &str|
            text@ == c_type && #[trigger] self.generator@.resolves(MapInput::Type(text, kind), name)
    }

    /// `out` may be the mapped C type of a type of shape `ty`: the name
    /// that the rules give to its translation, taken as a struct or union
    /// where `ty` names one.
    pub open spec fn mapped_type(&self, ty: TyView, out: Result<String, TranslationError>) -> bool {
        match out {
            Ok(name) => translated_type(ty, self.translator.setting()) matches Ok(c_type)
                && self.names(
                c_type,
                match lookup_name(ty) {
                    Some(ident) => kind_of(self.ffi_items@, ident),
                    None => TyKind::Other,
                },
                name,
            ),
            Err(e) => translated_type(ty, self.translator.setting()) == Err::<
                Seq<char>,
                TranslationError,
            >(e),
        }
    }

    /// `out` may be the C type of `item`: the name that the rules give to
    /// its type before renaming, taken as a struct or union where one of
    /// that name is declared; or the reason why it has no type.
    pub open spec fn types(&self, item: MapInput<'_>, out: Result<String, TranslationError>) -> bool {
        match out {
            Ok(name) => item_type(item, self.translator.setting()) matches Ok(c_type)
                && self.names(c_type, kind_of(self.ffi_items@, c_type), name),
            Err(e) => item_type(item, self.translator.setting()) == Err::<
                Seq<char>,
                TranslationError,
            >(e),
        }
    }

    /// What `name` refers to among the declarations.
    pub fn kind(&self, name: &str) -> (kind: TyKind)
        ensures
            kind == kind_of(self.ffi_items@, name@),
    {
        if self.ffi_items.contains_struct(name) {
            TyKind::Struct
        } else if self.ffi_items.contains_union(name) {
            TyKind::Union
        } else {
            TyKind::Other
        }
    }

    /// The name that the rules give to the C type `c_type`.
    pub fn name_type(&self, c_type: &str, kind: TyKind) -> (name: String)
        ensures
            self.names(c_type@, kind, name),
    {
        let name = self.generator.resolve(MapInput::Type(c_type, kind));
        assert(self.generator@.resolves(MapInput::Type(c_type, kind), name));
        name
    }

    /// Returns the equivalent C/Cpp identifier of the Rust item.
    pub fn c_ident(&self, item: MapInput<'_>) -> (name: String)
        ensures
            self.generator@.resolves(item, name),
    {
        self.generator.resolve(item)
    }

    /// Returns the equivalent C/Cpp type of the Rust item: the name that
    /// the rules give to its C type, taken as a struct or union where a
    /// struct or union of that name is declared.
    pub fn c_type(&self, item: MapInput<'_>) -> (out: Result<String, TranslationError>)
        ensures
            self.types(item, out),
    {
        let translated = match item {
            MapInput::Const(constant) => self.translator.translate_type(&constant.ty),
            MapInput::Field(_, field) => self.translator.translate_type(&field.ty),
            MapInput::FieldType(_, field) => self.translator.translate_type(&field.ty),
            MapInput::Static(item) => self.translator.translate_type(&item.ty),
            MapInput::Alias(alias) => Ok(
                self.translator.translate_primitive_type(alias.ident.as_str()),
            ),
            MapInput::Struct(s) => Ok(s.ident.clone()),
            MapInput::Fn(_) => Err(TranslationError::UnsupportedItem),
            MapInput::Type(_, _) => Err(TranslationError::UnsupportedItem),
        };
        match translated {
            Err(e) => Err(e),
            Ok(c_type) => {
                let kind = self.kind(c_type.as_str());
                Ok(self.name_type(c_type.as_str(), kind))
            },
        }
    }

    /// The mapped C type of `ty`.
    pub fn get_mapped_type(&self, ty: &Ty) -> (out: Result<String, TranslationError>)
        ensures
            self.mapped_type(ty@, out),
    {
        proof {
            reveal_with_fuel(Ty::model, 2);
        }
        let kind = match ty {
            Ty::Path { ident, .. } => self.kind(ident.as_str()),
            Ty::Ptr { elem, .. } => match &**elem {
                Ty::Path { ident, .. } => self.kind(ident.as_str()),
                _ => TyKind::Other,
            },
            _ => TyKind::Other,
        };
        match self.translator.translate_type(ty) {
            Err(e) => Err(e),
            Ok(c_type) => Ok(self.name_type(c_type.as_str(), kind)),
        }
    }

    /// Returns the volatile keyword if the given item is volatile.
    pub fn emit_volatile(&self, v: VolatileItemKind<'_>) -> (keyword: &'static str)
        ensures
            self.generator@.volatile_outcome(v, keyword@ == "volatile "@),
            keyword@ == "volatile "@ || keyword@ == ""@,
    {
        proof {
            reveal_strlit("volatile ");
            reveal_strlit("");
            assert("volatile "@.len() == 9 && ""@.len() == 0);
        }
        if self.generator.is_volatile(v) {
            "volatile "
        } else {
            ""
        }
    }
}

/// The C text of a pointer to a function, declared under `signature`: the
/// return type, then the tag and the name with two stars, then the
/// arguments.
pub open spec fn function_declarator(
    parts: Result<(Seq<char>, Seq<Seq<char>>, bool), TranslationError>,
    tag: Result<Seq<char>, TranslationError>,
    signature: Seq<char>,
) -> Result<Seq<char>, TranslationError> {
    match parts {
        Err(e) => Err(e),
        Ok((ret, params, variadic)) => match tag {
            Err(e) => Err(e),
            Ok(tag) => Ok(
                ret + "("@ + tag + "**"@ + signature + ")("@ + joined(
                    argument_list(params, variadic),
                    ", "@,
                ) + ")"@,
            ),
        },
    }
}

/// The lengths of an array as C text, each in brackets.
pub open spec fn dimensions(lens: Seq<ExprView>) -> Result<Seq<char>, TranslationError>
    decreases lens.len(),
{
    if lens.len() == 0 {
        Ok(Seq::empty())
    } else {
        match dimensions(lens.drop_last()) {
            Err(e) => Err(e),
            Ok(front) => match translated_expr(lens.last()) {
                Err(e) => Err(e),
                Ok(len) => Ok(front + "["@ + len + "]"@),
            },
        }
    }
}

impl<'a> CTestTemplate<'a> {
    /// `out` may declare `signature` as a pointer to a plain type of shape
    /// `ty`: the mapped type, a star and the name.
    pub open spec fn declares_pointer(
        &self,
        ty: TyView,
        signature: Seq<char>,
        out: Result<String, TranslationError>,
    ) -> bool {
        exists|mapped: Result<String, TranslationError>| #[trigger]
            self.mapped_type(ty, mapped) && text_of(out) == (match mapped {
                Err(e) => Err(e),
                Ok(name) => Ok(name@ + "* "@ + signature),
            })
    }

    /// `out` may declare `signature` as a pointer to an array of the
    /// lengths `lens` with elements of shape `elem`: the mapped type of
    /// the elements, the name in parentheses behind a star, and the
    /// lengths.
    pub open spec fn declares_array(
        &self,
        elem: TyView,
        lens: Seq<ExprView>,
        signature: Seq<char>,
        out: Result<String, TranslationError>,
    ) -> bool {
        exists|mapped: Result<String, TranslationError>| #[trigger]
            self.mapped_type(elem, mapped) && text_of(out) == (match mapped {
                Err(e) => Err(e),
                Ok(name) => match dimensions(lens) {
                    Err(e) => Err(e),
                    Ok(dims) => Ok(name@ + "(*"@ + signature + ")"@ + dims),
                },
            })
    }

    /// `out` may be the C declaration of `signature` as a pointer to a
    /// type of shape `ty`.
    ///
    /// `Option` is looked through. A function pointer and an array, and an
    /// array of arrays, are declared around the name, as C has it; any
    /// other type stands before it.
    pub open spec fn declares(
        &self,
        ty: TyView,
        signature: Seq<char>,
        out: Result<String, TranslationError>,
    ) -> bool
        decreases ty,
    {
        match ty {
            TyView::Path { ident, argument } => if ident == "Option"@ && argument is Some {
                self.declares(*argument->0, signature, out)
            } else {
                self.declares_pointer(ty, signature, out)
            },
            TyView::BareFn { abi, .. } => text_of(out) == function_declarator(
                signature_parts(ty, self.translator.setting()),
                translated_abi(abi, self.translator.target()),
                signature,
            ),
            TyView::Array { elem, len } => match *elem {
                TyView::Array { elem: inner, len: inner_len } => self.declares_array(
                    *inner,
                    seq![len, inner_len],
                    signature,
                    out,
                ),
                _ => self.declares_array(*elem, seq![len], signature, out),
            },
            _ => self.declares_pointer(ty, signature, out),
        }
    }

    /// Declares `signature` as a pointer to a plain type.
    fn pointer_signature(&self, ty: &Ty, signature: &str) -> (out: Result<
        String,
        TranslationError,
    >)
        ensures
            self.declares_pointer(ty@, signature@, out),
    {
        let mapped = self.get_mapped_type(ty);
        let out = match &mapped {
            Err(e) => Err(*e),
            Ok(name) => {
                let mut out = name.clone();
                out.append("* ");
                out.append(signature);
                Ok(out)
            },
        };
        assert(self.mapped_type(ty@, mapped));
        out
    }

    /// Declares `signature` as a pointer to an array.
    fn array_signature(&self, elem: &Ty, lens: Vec<&Expr>, signature: &str) -> (out: Result<
        String,
        TranslationError,
    >)
        ensures
            self.declares_array(elem@, Seq::new(lens@.len(), |i: int| lens@[i]@), signature@, out),
    {
        let ghost exprs = Seq::new(lens@.len(), |i: int| lens@[i]@);
        let mapped = self.get_mapped_type(elem);
        assert(self.mapped_type(elem@, mapped));
        let mut out = match &mapped {
            Err(e) => { return Err(*e); },
            Ok(name) => name.clone(),
        };
        out.append("(*");
        out.append(signature);
        out.append(")");
        let ghost head = out@;
        let mut n: usize = 0;
        assert(exprs.take(0) =~= Seq::empty());
        while n < lens.len()
            invariant
                n <= lens.len(),
                exprs == Seq::new(lens@.len(), |i: int| lens@[i]@),
                self.mapped_type(elem@, mapped),
                mapped matches Ok(name) && head == name@ + "(*"@ + signature@ + ")"@,
                dimensions(exprs.take(n as int)) matches Ok(dims) && out@ == head + dims,
            decreases lens.len() - n,
        {
            assert(exprs.take(n + 1).drop_last() =~= exprs.take(n as int));
            assert(exprs.take(n + 1).last() == lens@[n as int]@);
            match translate_expr(lens[n]) {
                Err(e) => {
                    proof {
                        lemma_dimensions_prefix(exprs, n + 1);
                    }
                    return Err(e);
                },
                Ok(len) => {
                    out.append("[");
                    out.append(len.as_str());
                    out.append("]");
                },
            }
            n = n + 1;
        }
        assert(exprs.take(n as int) =~= exprs);
        Ok(out)
    }

    /// Modifies a C function `signature` that returns a pointer to `ty`,
    /// so that it is declared as C wants it.
    ///
    /// Arrays and function types in C stand in other places than in Rust:
    /// the lengths of an array follow the parameter list.
    pub fn c_signature(&self, ty: &Ty, signature: &str) -> (out: Result<String, TranslationError>)
        ensures
            self.declares(ty@, signature@, out),
        decreases ty,
    {
        proof {
            reveal_with_fuel(Ty::model, 2);
        }
        match ty {
            Ty::Path { ident, argument } => {
                if same_text(ident.as_str(), "Option") {
                    match argument {
                        Some(inner) => { return self.c_signature(inner, signature); },
                        None => {},
                    }
                }
                self.pointer_signature(ty, signature)
            },
            Ty::BareFn { abi, .. } => {
                let (ret, mut args, variadic) = match self.translator.translate_signature_partial(
                    ty,
                ) {
                    Ok(parts) => parts,
                    Err(e) => { return Err(e); },
                };
                let tag = match abi {
                    None => String::new(),
                    Some(abi) => match translate_abi(abi, self.translator.target_str()) {
                        Ok(tag) => tag,
                        Err(e) => { return Err(e); },
                    },
                };
                let ghost params = views(args@);
                if variadic {
                    args.push("...".to_string());
                    assert(views(args@) =~= params.push("..."@));
                } else if args.len() == 0 {
                    args.push("void".to_string());
                    assert(views(args@) =~= seq!["void"@]);
                }
                let mut out = ret;
                out.append("(");
                out.append(tag.as_str());
                out.append("**");
                out.append(signature);
                out.append(")(");
                out.append(join(&args, ", ").as_str());
                out.append(")");
                Ok(out)
            },
            Ty::Array { elem, len } => match &**elem {
                Ty::Array { elem: inner, len: inner_len } => {
                    let mut lens: Vec<&Expr> = Vec::new();
                    lens.push(len);
                    lens.push(inner_len);
                    assert(Seq::new(lens@.len(), |i: int| lens@[i]@) =~= seq![len@, inner_len@]);
                    self.array_signature(inner, lens, signature)
                },
                _ => {
                    let mut lens: Vec<&Expr> = Vec::new();
                    lens.push(len);
                    assert(Seq::new(lens@.len(), |i: int| lens@[i]@) =~= seq![len@]);
                    self.array_signature(elem, lens, signature)
                },
            },
            _ => self.pointer_signature(ty, signature),
        }
    }
}

/// Once a prefix of `lens` fails to translate, so does the whole, with
/// the same error.
proof fn lemma_dimensions_prefix(lens: Seq<ExprView>, n: int)
    requires
        0 <= n <= lens.len(),
        dimensions(lens.take(n)) is Err,
    ensures
        dimensions(lens) == dimensions(lens.take(n)),
    decreases lens.len() - n,
{
    if n < lens.len() {
        assert(lens.take(n + 1).drop_last() =~= lens.take(n));
        lemma_dimensions_prefix(lens, n + 1);
    } else {
        assert(lens.take(n) =~= lens);
    }
}

/// `test` may be what `rule` says of testing `ident`: where no rule is
/// set the test is made, and where one is, it is made unless the rule
/// leaves it out.
pub open spec fn allowed_by(rule: Option<NameRule>, ident: &str, test: bool) -> bool {
    match rule {
        None => test,
        Some(rule) => rule.decides(ident, !test),
    }
}

/// `test` says what `rule` says of testing `ident`.
fn allowed(rule: &Option<NameRule>, ident: &str) -> (test: bool)
    ensures
        allowed_by(*rule, ident, test),
{
    match rule {
        None => true,
        Some(rule) => !rule.test(ident),
    }
}

/// Determine whether a Rust alias/struct/union should have a round trip test.
///
/// By default all of them are tested.
pub fn should_roundtrip(generator: &TestGenerator, ident: &str) -> (test: bool)
    ensures
        allowed_by(generator@.skip_roundtrip, ident, test),
{
    allowed(&generator.skip_roundtrip, ident)
}

/// Determine whether a Rust alias should have a signededness test.
///
/// By default all aliases are tested if they alias to a signed/unsigned type.
pub fn should_test_sign(generator: &TestGenerator, ident: &str) -> (test: bool)
    ensures
        allowed_by(generator@.skip_signededness, ident, test),
{
    allowed(&generator.skip_signededness, ident)
}

/// Determine whether a Rust ffi function should have its function pointer tested.
pub fn should_test_fn_ptr(generator: &TestGenerator, ident: &str) -> (test: bool)
    ensures
        allowed_by(generator@.skip_fn_ptr_check, ident, test),
{
    allowed(&generator.skip_fn_ptr_check, ident)
}

/// `skip` may be whether the tests of `field` of `s` are left out: it is
/// where a skip rule says so of the field, and where the field is not
/// public.
pub open spec fn skips_field(generator: &TestGenerator, s: &Struct, field: &Field, skip: bool) -> bool {
    exists|answer: bool| #[trigger]
        generator@.skip_outcome(MapInput::Field(s, field), answer) && skip == (answer
            || !field.public)
}

/// `skip` may be whether the test of the type of `field` of `s` is left
/// out: it is where a skip rule says so of the field's type, and where the
/// field is not public.
pub open spec fn skips_field_type(
    generator: &TestGenerator,
    s: &Struct,
    field: &Field,
    skip: bool,
) -> bool {
    exists|answer: bool| #[trigger]
        generator@.skip_outcome(MapInput::FieldType(s, field), answer) && skip == (answer
            || !field.public)
}

/// Determine whether a struct field should be skipped for tests.
pub fn should_skip_field(generator: &TestGenerator, s: &Struct, field: &Field) -> (skip: bool)
    ensures
        skips_field(generator, s, field, skip),
{
    let answer = generator.should_skip(&MapInput::Field(s, field));
    assert(generator@.skip_outcome(MapInput::Field(s, field), answer));
    answer || !field.public
}

/// Determine whether a struct field type should be skipped for tests.
pub fn should_skip_field_type(generator: &TestGenerator, s: &Struct, field: &Field) -> (skip: bool)
    ensures
        skips_field_type(generator, s, field, skip),
{
    let answer = generator.should_skip(&MapInput::FieldType(s, field));
    assert(generator@.skip_outcome(MapInput::FieldType(s, field), answer));
    answer || !field.public
}

/// The C type that stands for the name `c_type` where no rule renames
/// it: the name with the keyword `struct` where a struct of that name is
/// declared, else with `union` where a union is, else the name alone.
pub open spec fn default_type(items: Declared, c_type: Seq<char>) -> Seq<char> {
    match kind_of(items, c_type) {
        TyKind::Struct => "struct "@ + c_type,
        TyKind::Union => "union "@ + c_type,
        TyKind::Other => c_type,
    }
}

/// Where no rename rule is registered, a name that the rules are given
/// as the name of a type stands with the keyword of its kind: `struct`
/// for a struct, `union` for a union, and none for any other.
pub proof fn lemma_default_type_name(
    template: CTestTemplate<'_>,
    c_type: Seq<char>,
    kind: TyKind,
    name: String,
)
    requires
        template.generator@.mapped_names.len() == 0,
        template.names(c_type, kind, name),
    ensures
        name@ == (match kind {
            TyKind::Struct => "struct "@ + c_type,
            TyKind::Union => "union "@ + c_type,
            TyKind::Other => c_type,
        }),
{
}

/// Where no rename rule is registered, the declarations alone decide the
/// C type of an item: it is the type before renaming, with the keyword of
/// what that name is declared as.
pub proof fn lemma_default_c_type(
    template: CTestTemplate<'_>,
    item: MapInput<'_>,
    out: Result<String, TranslationError>,
)
    requires
        template.generator@.mapped_names.len() == 0,
        template.types(item, out),
    ensures
        match item_type(item, template.translator.setting()) {
            Ok(c_type) => out matches Ok(name) && name@ == default_type(
                template.ffi_items@,
                c_type,
            ),
            Err(e) => out matches Err(given) && given == e,
        },
{
}

/// A struct's type before renaming is its own name, whatever the name is.
pub proof fn lemma_struct_keeps_its_name(s: &Struct, setting: Setting)
    ensures
        item_type(MapInput::Struct(s), setting) == Ok::<Seq<char>, TranslationError>(s.ident@),
{
}

/// A named type that the declarations hold as a struct or union keeps
/// its name in the tests of these declarations: the table of primitive
/// types is not asked.
pub proof fn lemma_declared_types_keep_their_names(
    items: Declared,
    target: Option<Seq<char>>,
    ident: Seq<char>,
    argument: Option<Box<TyView>>,
)
    requires
        ident != "Option"@,
        items.has_struct(ident) || items.has_union(ident),
    ensures
        translated_type(TyView::Path { ident, argument }, setting_of(target, items)) == Ok::<
            Seq<char>,
            TranslationError,
        >(ident),
{
    lemma_names_are_of_declarations(items, ident);
}

} // verus!
