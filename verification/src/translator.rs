//! Rust types written as C types.
//!
//! [`translated_type`] says, for every shape of type, the C text that stands
//! for it or the reason why none does; [`Translator::translate_type`]
//! computes it.

use crate::ast::{Abi, AbiView, BinOp, Expr, ExprView, Ty, TyView};
use crate::text::{
    chars_of, contains, contains_text, join, joined, replace_all, replaced, same_text,
    starts_with, tail, views,
};
use vstd::prelude::*;
use vstd::string::StringExecFns;

verus! {

/// Why a type or an array length has no C counterpart.
#[derive(Debug, Clone, Copy, PartialEq, Eq, Structural)]
pub enum TranslationError {
    /// The shape of the type is not one that can be written in C.
    UnsupportedType,
    /// A reference to something other than a named type or an array.
    UnknownReference,
    /// `&mut str`.
    MutableStr,
    /// A reference to a named type that is neither primitive nor a
    /// declared struct.
    NonPrimitiveReference,
    /// A function pointer with lifetime parameters.
    Lifetimes,
    /// `Option` without a type as its first argument.
    MissingArgument,
    /// A calling convention with no C spelling.
    UnknownAbi,
    /// A literal other than an integer in an array length.
    NonIntegerLiteral,
    /// An operator other than `+` and `-` in an array length.
    UnknownOperator,
    /// Any other expression in an array length.
    UnsupportedExpr,
    /// An item that has no type of its own was asked for one.
    UnsupportedItem,
}

impl TranslationError {
    /// What went wrong, in words.
    pub open spec fn description(self) -> Seq<char> {
        match self {
            TranslationError::UnsupportedType => "the type has no equivalent in C"@,
            TranslationError::UnknownReference => "a reference to a type of unknown kind"@,
            TranslationError::MutableStr => "a mutable reference to str"@,
            TranslationError::NonPrimitiveReference => "a reference to a type that is neither primitive nor a struct"@,
            TranslationError::Lifetimes => "a function pointer with lifetime parameters"@,
            TranslationError::MissingArgument => "Option without a type argument"@,
            TranslationError::UnknownAbi => "an unknown calling convention"@,
            TranslationError::NonIntegerLiteral => "an array length with a literal that is not an integer"@,
            TranslationError::UnknownOperator => "an array length with an unknown operator"@,
            TranslationError::UnsupportedExpr => "an array length that is not a simple expression"@,
            TranslationError::UnsupportedItem => "an item without a type of its own"@,
        }
    }

    /// What went wrong, in words.
    pub fn message(&self) -> (text: &'static str)
        ensures
            text@ == self.description(),
    {
        match self {
            TranslationError::UnsupportedType => "the type has no equivalent in C",
            TranslationError::UnknownReference => "a reference to a type of unknown kind",
            TranslationError::MutableStr => "a mutable reference to str",
            TranslationError::NonPrimitiveReference => "a reference to a type that is neither primitive nor a struct",
            TranslationError::Lifetimes => "a function pointer with lifetime parameters",
            TranslationError::MissingArgument => "Option without a type argument",
            TranslationError::UnknownAbi => "an unknown calling convention",
            TranslationError::NonIntegerLiteral => "an array length with a literal that is not an integer",
            TranslationError::UnknownOperator => "an array length with an unknown operator",
            TranslationError::UnsupportedExpr => "an array length that is not a simple expression",
            TranslationError::UnsupportedItem => "an item without a type of its own",
        }
    }
}

/// What a translation yields: the C text, or why there is none.
pub type Translated = Result<Seq<char>, TranslationError>;

/// What a translation goes by besides the type itself: the target, which
/// decides the tag of some calling conventions, and the names that are
/// declared as structs and as unions, which stand for themselves.
pub struct Setting {
    pub target: Option<Seq<char>>,
    pub structs: Seq<Seq<char>>,
    pub unions: Seq<Seq<char>>,
}

impl Setting {
    /// The setting in which no target is known and nothing is declared.
    pub open spec fn plain() -> Setting {
        Setting { target: None, structs: Seq::empty(), unions: Seq::empty() }
    }

    /// Whether `ident` is declared as a struct or as a union.
    pub open spec fn declares(self, ident: Seq<char>) -> bool {
        self.structs.contains(ident) || self.unions.contains(ident)
    }
}

/// Whether `ident` names a primitive type: one of Rust's fixed-width
/// integers and floats, or a `c_*` alias.
pub open spec fn is_primitive_name(ident: Seq<char>) -> bool {
    ||| "c_"@.is_prefix_of(ident)
    ||| ident == "usize"@
    ||| ident == "u8"@
    ||| ident == "u16"@
    ||| ident == "u32"@
    ||| ident == "u64"@
    ||| ident == "isize"@
    ||| ident == "i8"@
    ||| ident == "i16"@
    ||| ident == "i32"@
    ||| ident == "i64"@
    ||| ident == "f32"@
    ||| ident == "f64"@
}

/// The C spelling of what is left of a `c_*` alias once `c_` is taken off
/// and every `long` has a space before it: a leading `u` reads `unsigned`,
/// a leading `s` reads `signed`, and `short` is itself.
pub open spec fn c_integer_name(name: Seq<char>) -> Seq<char> {
    if name == "short"@ {
        name
    } else if name.len() > 0 && name[0] == 'u' {
        "unsigned "@ + name.skip(1)
    } else if name.len() > 0 && name[0] == 's' {
        "signed "@ + name.skip(1)
    } else {
        name
    }
}

/// The C name of the type that `ident` names. A name that is not in the
/// table stands for itself.
pub open spec fn primitive_name(ident: Seq<char>) -> Seq<char> {
    if ident == "usize"@ {
        "size_t"@
    } else if ident == "isize"@ {
        "ssize_t"@
    } else if ident == "u8"@ {
        "uint8_t"@
    } else if ident == "u16"@ {
        "uint16_t"@
    } else if ident == "u32"@ {
        "uint32_t"@
    } else if ident == "u64"@ {
        "uint64_t"@
    } else if ident == "i8"@ {
        "int8_t"@
    } else if ident == "i16"@ {
        "int16_t"@
    } else if ident == "i32"@ {
        "int32_t"@
    } else if ident == "i64"@ {
        "int64_t"@
    } else if ident == "f32"@ {
        "float"@
    } else if ident == "f64"@ {
        "double"@
    } else if ident == "()"@ {
        "void"@
    } else if ident == "c_longdouble"@ || ident == "c_long_double"@ {
        "long double"@
    } else if "c_"@.is_prefix_of(ident) {
        c_integer_name(replaced(ident.skip(2), "long"@, " long"@))
    } else {
        ident
    }
}

/// The C name of a named type: the name of a struct or union that is
/// declared stands for itself, and any other name goes by the table of
/// primitive types.
pub open spec fn named_type(ident: Seq<char>, setting: Setting) -> Seq<char> {
    if setting.declares(ident) {
        ident
    } else {
        primitive_name(ident)
    }
}

/// The name a calling convention is declared with.
pub open spec fn abi_name(abi: AbiView) -> Seq<char> {
    match abi {
        AbiView::C => "C"@,
        AbiView::Rust => "Rust"@,
        AbiView::Other(name) => name,
    }
}

/// The C tag of a calling convention on `target`: `stdcall` is
/// `__stdcall `, and so is `system` on 32-bit Windows; `C`, and `system`
/// anywhere else, need none.
pub open spec fn abi_tag(abi: AbiView, target: Option<Seq<char>>) -> Translated {
    let name = abi_name(abi);
    if name == "stdcall"@ {
        Ok("__stdcall "@)
    } else if name == "system"@ {
        if target is Some && contains_text(target->0, "i686-pc-windows"@) {
            Ok("__stdcall "@)
        } else {
            Ok(Seq::empty())
        }
    } else if name == "C"@ {
        Ok(Seq::empty())
    } else {
        Err(TranslationError::UnknownAbi)
    }
}

/// The C text of an array length: literals and names stand as they are,
/// casts are dropped, and sums and differences keep their operator.
pub open spec fn translated_expr(expr: ExprView) -> Translated
    decreases expr,
{
    match expr {
        ExprView::Int { text } => Ok(text),
        ExprView::OtherLit => Err(TranslationError::NonIntegerLiteral),
        ExprView::Path { ident } => Ok(ident),
        ExprView::Cast { expr } => translated_expr(*expr),
        ExprView::Binary { left, op, right } => match translated_expr(*left) {
            Err(e) => Err(e),
            Ok(l) => match translated_expr(*right) {
                Err(e) => Err(e),
                Ok(r) => match op {
                    BinOp::Add => Ok(l + " + "@ + r),
                    BinOp::Sub => Ok(l + " - "@ + r),
                    BinOp::Other => Err(TranslationError::UnknownOperator),
                },
            },
        },
        ExprView::Other => Err(TranslationError::UnsupportedExpr),
    }
}

/// The qualifier that a reference puts before the type it points to:
/// `const ` unless the reference is mutable.
pub open spec fn reference_qualifier(mutable: bool) -> Seq<char> {
    if mutable {
        Seq::empty()
    } else {
        "const "@
    }
}

/// The qualifier of a pointer: `const` unless the pointer is mutable.
pub open spec fn pointer_qualifier(mutable: bool) -> Seq<char> {
    if mutable {
        Seq::empty()
    } else {
        "const"@
    }
}

/// The argument list of a function pointer: `...` follows the parameters
/// of a variadic function, and `void` stands for no parameters at all.
pub open spec fn argument_list(params: Seq<Seq<char>>, variadic: bool) -> Seq<Seq<char>> {
    if variadic {
        params.push("..."@)
    } else if params.len() == 0 {
        seq!["void"@]
    } else {
        params
    }
}

/// The C text of a function pointer, from the text of its return type,
/// the tag of its calling convention and its arguments. A return type that
/// is itself a function pointer is wrapped around the new declarator.
pub open spec fn function_pointer(ret: Seq<char>, tag: Seq<char>, args: Seq<Seq<char>>) -> Seq<
    char,
> {
    let list = joined(args, ", "@);
    if contains_text(ret, "(*)"@) {
        replaced(ret, "(*)"@, "(*("@ + tag + "*)("@ + list + "))"@)
    } else {
        ret + "("@ + tag + "*)("@ + list + ")"@
    }
}

/// The C text of a type.
pub open spec fn translated_type(ty: TyView, setting: Setting) -> Translated
    decreases ty, 0nat,
{
    match ty {
        TyView::Ptr { mutable, elem } => translated_ptr(mutable, *elem, setting),
        TyView::Path { ident, argument } => if ident == "Option"@ {
            match argument {
                Some(inner) => translated_type(*inner, setting),
                None => Err(TranslationError::MissingArgument),
            }
        } else {
            Ok(named_type(ident, setting))
        },
        TyView::Unit => Ok("void"@),
        TyView::Array { elem, len } => match translated_type(*elem, setting) {
            Err(e) => Err(e),
            Ok(elem) => match translated_expr(len) {
                Err(e) => Err(e),
                Ok(len) => Ok(elem + "["@ + len + "]"@),
            },
        },
        TyView::Reference { mutable, elem } => translated_reference(mutable, *elem, setting),
        TyView::BareFn { abi, lifetimes, inputs, variadic, output } => if lifetimes {
            Err(TranslationError::Lifetimes)
        } else {
            match translated_types(inputs, setting) {
                Err(e) => Err(e),
                Ok(params) => match (match output {
                    Some(ty) => translated_type(*ty, setting),
                    None => Ok("void"@),
                }) {
                    Err(e) => Err(e),
                    Ok(ret) => match translated_abi(abi, setting.target) {
                        Err(e) => Err(e),
                        Ok(tag) => Ok(function_pointer(ret, tag, argument_list(params, variadic))),
                    },
                },
            }
        },
        TyView::Never => Ok("void"@),
        TyView::Other => Err(TranslationError::UnsupportedType),
    }
}

/// The tag of the calling convention that a function pointer names, none
/// where it names no convention.
pub open spec fn translated_abi(abi: Option<AbiView>, target: Option<Seq<char>>) -> Translated {
    match abi {
        Some(abi) => abi_tag(abi, target),
        None => Ok(Seq::empty()),
    }
}

/// The C texts of `types`, in order, or the error of the first that has none.
pub open spec fn translated_types(types: Seq<TyView>, setting: Setting) -> Result<
    Seq<Seq<char>>,
    TranslationError,
>
    decreases types, 1nat,
{
    if types.len() == 0 {
        Ok(Seq::empty())
    } else {
        match translated_types(types.drop_last(), setting) {
            Err(e) => Err(e),
            Ok(front) => match translated_type(types.last(), setting) {
                Err(e) => Err(e),
                Ok(last) => Ok(front.push(last)),
            },
        }
    }
}

/// The parts of a function pointer's C text: its return type, `void` where
/// none is written, its parameters in order, and whether it is variadic.
pub open spec fn signature_parts(function: TyView, setting: Setting) -> Result<
    (Seq<char>, Seq<Seq<char>>, bool),
    TranslationError,
> {
    match function {
        TyView::BareFn { abi: _, lifetimes: _, inputs, variadic, output } => match translated_types(
            inputs,
            setting,
        ) {
            Err(e) => Err(e),
            Ok(params) => match (match output {
                Some(ty) => translated_type(*ty, setting),
                None => Ok("void"@),
            }) {
                Err(e) => Err(e),
                Ok(ret) => Ok((ret, params, variadic)),
            },
        },
        _ => Err(TranslationError::UnsupportedType),
    }
}

/// The C text of a pointer to `elem`.
///
/// A pointer to a function pointer is that function pointer. A pointer to
/// a pointer has its qualifier behind the inner pointer; any other pointer
/// has it in front of the type.
pub open spec fn translated_ptr(mutable: bool, elem: TyView, setting: Setting) -> Translated
    decreases elem, 1nat,
{
    let qualifier = pointer_qualifier(mutable);
    match elem {
        TyView::BareFn { .. } => translated_type(elem, setting),
        TyView::Ptr { .. } => match translated_type(elem, setting) {
            Err(e) => Err(e),
            Ok(inner) => Ok(inner + " "@ + qualifier + "*"@),
        },
        TyView::Array { elem: _, len } => match translated_expr(len) {
            Err(e) => Err(e),
            Ok(len) => match translated_type(elem, setting) {
                Err(e) => Err(e),
                Ok(inner) => Ok(qualifier + " "@ + inner + " ["@ + len + "]"@),
            },
        },
        _ => match translated_type(elem, setting) {
            Err(e) => Err(e),
            Ok(inner) => Ok(qualifier + " "@ + inner + "*"@),
        },
    }
}

/// The C text of a reference to `elem`: a pointer, `const` unless the
/// reference is mutable.
///
/// Only primitive types, declared structs, `str` and arrays can stand
/// behind a reference; `&str` is `char*`, a struct keeps its name, and a
/// reference to an array points to its element.
pub open spec fn translated_reference(mutable: bool, elem: TyView, setting: Setting) -> Translated
    decreases elem, 1nat,
{
    match elem {
        TyView::Path { ident, argument: _ } => if ident == "str"@ {
            if mutable {
                Err(TranslationError::MutableStr)
            } else {
                Ok("char*"@)
            }
        } else if setting.structs.contains(ident) {
            Ok(reference_qualifier(mutable) + ident + "*"@)
        } else if !setting.unions.contains(ident) && is_primitive_name(ident) {
            Ok(reference_qualifier(mutable) + primitive_name(ident) + "*"@)
        } else {
            Err(TranslationError::NonPrimitiveReference)
        },
        TyView::Array { elem: inner, len: _ } => match translated_type(*inner, setting) {
            Err(e) => Err(e),
            Ok(inner) => Ok(reference_qualifier(mutable) + inner + "*"@),
        },
        _ => Err(TranslationError::UnknownReference),
    }
}

/// A result of the translator with its text as characters.
pub open spec fn text_of(r: Result<String, TranslationError>) -> Translated {
    match r {
        Ok(text) => Ok(text@),
        Err(e) => Err(e),
    }
}

/// The C spelling of a `c_*` alias after its prefix.
fn c_integer(name: String) -> (out: String)
    ensures
        out@ == c_integer_name(name@),
{
    if same_text(name.as_str(), "short") {
        return name;
    }
    let chars = chars_of(name.as_str());
    if chars.len() > 0 && chars[0] == 'u' {
        let mut out = "unsigned ".to_string();
        out.append(tail(name.as_str(), 1));
        out
    } else if chars.len() > 0 && chars[0] == 's' {
        let mut out = "signed ".to_string();
        out.append(tail(name.as_str(), 1));
        out
    } else {
        name
    }
}

/// The name a calling convention is declared with.
fn name_of_abi(abi: &Abi) -> (name: &str)
    ensures
        name@ == abi_name(abi@),
{
    match abi {
        Abi::C => "C",
        Abi::Rust => "Rust",
        Abi::Other(name) => name.as_str(),
    }
}

/// The C tag of a calling convention on `target`.
pub fn translate_abi(abi: &Abi, target: Option<&str>) -> (tag: Result<String, TranslationError>)
    ensures
        text_of(tag) == abi_tag(
            abi@,
            match target {
                Some(t) => Some(t@),
                None => None,
            },
        ),
{
    let name = name_of_abi(abi);
    if same_text(name, "stdcall") {
        Ok("__stdcall ".to_string())
    } else if same_text(name, "system") {
        let windows = match target {
            Some(t) => contains(t, "i686-pc-windows"),
            None => false,
        };
        if windows {
            Ok("__stdcall ".to_string())
        } else {
            Ok(String::new())
        }
    } else if same_text(name, "C") {
        Ok(String::new())
    } else {
        Err(TranslationError::UnknownAbi)
    }
}

/// The C text of an array length.
pub fn translate_expr(expr: &Expr) -> (out: Result<String, TranslationError>)
    ensures
        text_of(out) == translated_expr(expr@),
    decreases expr,
{
    match expr {
        Expr::Int { text } => Ok(text.clone()),
        Expr::OtherLit => Err(TranslationError::NonIntegerLiteral),
        Expr::Path { ident } => Ok(ident.clone()),
        Expr::Cast { expr } => translate_expr(expr),
        Expr::Binary { left, op, right } => {
            let l = match translate_expr(left) {
                Ok(l) => l,
                Err(e) => { return Err(e); },
            };
            let r = match translate_expr(right) {
                Ok(r) => r,
                Err(e) => { return Err(e); },
            };
            let sign = match op {
                BinOp::Add => " + ",
                BinOp::Sub => " - ",
                BinOp::Other => { return Err(TranslationError::UnknownOperator); },
            };
            let mut out = l;
            out.append(sign);
            out.append(r.as_str());
            Ok(out)
        },
        Expr::Other => Err(TranslationError::UnsupportedExpr),
    }
}

/// A translator of Rust types into C types.
#[derive(Debug)]
pub struct Translator {
    target: Option<String>,
    structs: Vec<String>,
    unions: Vec<String>,
}

impl Default for Translator {
    fn default() -> (translator: Self)
        ensures
            translator.setting() == Setting::plain(),
    {
        Translator::new()
    }
}

/// Whether `ident` is among `names`.
fn is_among(names: &Vec<String>, ident: &str) -> (found: bool)
    ensures
        found == views(names@).contains(ident@),
{
    let mut i: usize = 0;
    while i < names.len()
        invariant
            i <= names.len(),
            forall|j: int| 0 <= j < i ==> views(names@)[j] != ident@,
        decreases names.len() - i,
    {
        if same_text(names[i].as_str(), ident) {
            assert(views(names@)[i as int] == ident@);
            return true;
        }
        i = i + 1;
    }
    false
}

impl Translator {
    /// What the translator goes by: its target, if one is known, and the
    /// names it knows as structs and as unions.
    pub closed spec fn setting(&self) -> Setting {
        Setting {
            target: match self.target {
                Some(t) => Some(t@),
                None => None,
            },
            structs: views(self.structs@),
            unions: views(self.unions@),
        }
    }

    /// The target that calling conventions are chosen for, if one is known.
    pub open spec fn target(&self) -> Option<Seq<char>> {
        self.setting().target
    }

    /// A translator that knows of no target and of no struct or union.
    pub fn new() -> (translator: Self)
        ensures
            translator.setting() == Setting::plain(),
    {
        let translator = Translator { target: None, structs: Vec::new(), unions: Vec::new() };
        assert(translator.setting().structs =~= Seq::empty());
        assert(translator.setting().unions =~= Seq::empty());
        translator
    }

    /// A translator for `target` that knows of no struct or union.
    pub fn for_target(target: &str) -> (translator: Self)
        ensures
            translator.setting() == (Setting { target: Some(target@), ..Setting::plain() }),
    {
        let translator = Translator {
            target: Some(target.to_string()),
            structs: Vec::new(),
            unions: Vec::new(),
        };
        assert(translator.setting().structs =~= Seq::empty());
        assert(translator.setting().unions =~= Seq::empty());
        translator
    }

    /// A translator for `target`, if one is known, that knows the names of
    /// the declared structs and unions.
    pub fn for_declarations(target: Option<&str>, structs: Vec<String>, unions: Vec<String>) -> (translator:
        Self)
        ensures
            translator.setting() == (Setting {
                target: match target {
                    Some(t) => Some(t@),
                    None => None,
                },
                structs: views(structs@),
                unions: views(unions@),
            }),
    {
        let target = match target {
            Some(t) => Some(t.to_string()),
            None => None,
        };
        Translator { target, structs, unions }
    }

    /// The C name of the named type `ident`: itself where it is declared
    /// as a struct or union, and the name that the table of primitive
    /// types gives anywhere else.
    pub fn translate_named_type(&self, ident: &str) -> (name: String)
        ensures
            name@ == named_type(ident@, self.setting()),
    {
        if is_among(&self.structs, ident) || is_among(&self.unions, ident) {
            ident.to_string()
        } else {
            self.translate_primitive_type(ident)
        }
    }

    /// Whether `ty` names a primitive type of Rust.
    pub fn is_rust_primitive(&self, ty: &str) -> (primitive: bool)
        ensures
            primitive == is_primitive_name(ty@),
    {
        starts_with(ty, "c_") || same_text(ty, "usize") || same_text(ty, "u8") || same_text(
            ty,
            "u16",
        ) || same_text(ty, "u32") || same_text(ty, "u64") || same_text(ty, "isize") || same_text(
            ty,
            "i8",
        ) || same_text(ty, "i16") || same_text(ty, "i32") || same_text(ty, "i64") || same_text(
            ty,
            "f32",
        ) || same_text(ty, "f64")
    }

    /// The qualifier that a reference puts before the type it points to.
    fn translate_mut(&self, mutable: bool) -> (qualifier: String)
        ensures
            qualifier@ == reference_qualifier(mutable),
    {
        if mutable {
            String::new()
        } else {
            "const ".to_string()
        }
    }

    /// The C name of the primitive type that `ident` names.
    pub fn translate_primitive_type(&self, ident: &str) -> (name: String)
        ensures
            name@ == primitive_name(ident@),
    {
        if same_text(ident, "usize") {
            "size_t".to_string()
        } else if same_text(ident, "isize") {
            "ssize_t".to_string()
        } else if same_text(ident, "u8") {
            "uint8_t".to_string()
        } else if same_text(ident, "u16") {
            "uint16_t".to_string()
        } else if same_text(ident, "u32") {
            "uint32_t".to_string()
        } else if same_text(ident, "u64") {
            "uint64_t".to_string()
        } else if same_text(ident, "i8") {
            "int8_t".to_string()
        } else if same_text(ident, "i16") {
            "int16_t".to_string()
        } else if same_text(ident, "i32") {
            "int32_t".to_string()
        } else if same_text(ident, "i64") {
            "int64_t".to_string()
        } else if same_text(ident, "f32") {
            "float".to_string()
        } else if same_text(ident, "f64") {
            "double".to_string()
        } else if same_text(ident, "()") {
            "void".to_string()
        } else if same_text(ident, "c_longdouble") || same_text(ident, "c_long_double") {
            "long double".to_string()
        } else if starts_with(ident, "c_") {
            proof {
                reveal_strlit("c_");
            }
            c_integer(replace_all(tail(ident, 2), "long", " long"))
        } else {
            ident.to_string()
        }
    }
}

/// Once a prefix of `types` fails to translate, so does the whole, with
/// the same error.
proof fn lemma_translated_types_prefix(types: Seq<TyView>, n: int, setting: Setting)
    requires
        0 <= n <= types.len(),
        translated_types(types.take(n), setting) is Err,
    ensures
        translated_types(types, setting) == translated_types(types.take(n), setting),
    decreases types.len() - n,
{
    if n < types.len() {
        assert(types.take(n + 1).drop_last() =~= types.take(n));
        lemma_translated_types_prefix(types, n + 1, setting);
    } else {
        assert(types.take(n) =~= types);
    }
}

impl Translator {
    /// The C text of `ty`, or why it has none.
    pub fn translate_type(&self, ty: &Ty) -> (out: Result<String, TranslationError>)
        ensures
            text_of(out) == translated_type(ty@, self.setting()),
        decreases ty, 2nat,
    {
        match ty {
            Ty::Ptr { mutable, elem } => self.translate_ptr(*mutable, elem),
            Ty::Path { ident, argument } => self.translate_path(ident.as_str(), argument),
            Ty::Unit => Ok("void".to_string()),
            Ty::Array { elem, len } => self.translate_array(elem, len),
            Ty::Reference { mutable, elem } => self.translate_reference(*mutable, elem),
            Ty::BareFn { .. } => self.translate_bare_fn(ty),
            Ty::Never => Ok("void".to_string()),
            Ty::Other => Err(TranslationError::UnsupportedType),
        }
    }

    /// The C text of a reference to `elem`.
    fn translate_reference(&self, mutable: bool, elem: &Ty) -> (out: Result<
        String,
        TranslationError,
    >)
        ensures
            text_of(out) == translated_reference(mutable, elem@, self.setting()),
        decreases elem, 3nat,
    {
        match elem {
            Ty::Path { ident, .. } => {
                if same_text(ident.as_str(), "str") {
                    if mutable {
                        Err(TranslationError::MutableStr)
                    } else {
                        Ok("char*".to_string())
                    }
                } else if is_among(&self.structs, ident.as_str()) {
                    let mut out = self.translate_mut(mutable);
                    out.append(ident.as_str());
                    out.append("*");
                    Ok(out)
                } else if !is_among(&self.unions, ident.as_str()) && self.is_rust_primitive(
                    ident.as_str(),
                ) {
                    let mut out = self.translate_mut(mutable);
                    out.append(self.translate_primitive_type(ident.as_str()).as_str());
                    out.append("*");
                    Ok(out)
                } else {
                    Err(TranslationError::NonPrimitiveReference)
                }
            },
            Ty::Array { elem: inner, .. } => {
                match self.translate_type(inner) {
                    Err(e) => Err(e),
                    Ok(inner) => {
                        let mut out = self.translate_mut(mutable);
                        out.append(inner.as_str());
                        out.append("*");
                        Ok(out)
                    },
                }
            },
            _ => Err(TranslationError::UnknownReference),
        }
    }

    /// The C texts of `inputs`, the parameters of the function pointer
    /// `owner`, in order, or the error of the first that has none.
    fn translate_inputs(&self, inputs: &Vec<Ty>, Ghost(owner): Ghost<&Ty>) -> (out: Result<
        Vec<String>,
        TranslationError,
    >)
        requires
            owner is BareFn,
            owner->inputs == inputs,
        ensures
            match out {
                Ok(params) => translated_types(owner@->inputs, self.setting()) == Ok::<
                    Seq<Seq<char>>,
                    TranslationError,
                >(views(params@)),
                Err(e) => translated_types(owner@->inputs, self.setting()) == Err::<
                    Seq<Seq<char>>,
                    TranslationError,
                >(e),
            },
        decreases owner, 0nat,
    {
        let ghost types = owner@->inputs;
        let mut params: Vec<String> = Vec::new();
        let mut n: usize = 0;
        assert(types.take(0) =~= Seq::empty());
        assert(views(params@) =~= Seq::empty());
        while n < inputs.len()
            invariant
                owner is BareFn,
                owner->inputs == inputs,
                types == owner@->inputs,
                types.len() == inputs@.len(),
                n <= inputs.len(),
                translated_types(types.take(n as int), self.setting()) == Ok::<
                    Seq<Seq<char>>,
                    TranslationError,
                >(views(params@)),
            decreases inputs.len() - n,
        {
            assert(types.take(n + 1).drop_last() =~= types.take(n as int));
            assert(types.take(n + 1).last() == inputs@[n as int]@);
            match self.translate_type(&inputs[n]) {
                Err(e) => {
                    proof {
                        lemma_translated_types_prefix(types, n + 1, self.setting());
                    }
                    return Err(e);
                },
                Ok(text) => {
                    let ghost before = views(params@);
                    params.push(text);
                    assert(views(params@) =~= before.push(text@));
                },
            }
            n = n + 1;
        }
        assert(types.take(n as int) =~= types);
        Ok(params)
    }

    /// The C text of a function pointer.
    fn translate_bare_fn(&self, function: &Ty) -> (out: Result<String, TranslationError>)
        requires
            function is BareFn,
        ensures
            text_of(out) == translated_type(function@, self.setting()),
        decreases function, 1nat,
    {
        match function {
            Ty::BareFn { abi, lifetimes, inputs, variadic, output } => {
                if *lifetimes {
                    return Err(TranslationError::Lifetimes);
                }
                let mut params = match self.translate_inputs(inputs, Ghost(function)) {
                    Ok(params) => params,
                    Err(e) => { return Err(e); },
                };
                let ret = match output {
                    None => "void".to_string(),
                    Some(ty) => match self.translate_type(ty) {
                        Ok(ret) => ret,
                        Err(e) => { return Err(e); },
                    },
                };
                let tag = match abi {
                    None => String::new(),
                    Some(abi) => match translate_abi(abi, self.target_str()) {
                        Ok(tag) => tag,
                        Err(e) => { return Err(e); },
                    },
                };
                let ghost plain = views(params@);
                if *variadic {
                    params.push("...".to_string());
                    assert(views(params@) =~= plain.push("..."@));
                } else if params.len() == 0 {
                    params.push("void".to_string());
                    assert(views(params@) =~= seq!["void"@]);
                }
                Ok(function_pointer_text(ret, tag.as_str(), &params))
            },
            _ => Err(TranslationError::UnsupportedType),
        }
    }

    /// The target as a string slice.
    pub fn target_str(&self) -> (target: Option<&str>)
        ensures
            match target {
                Some(t) => self.target() == Some(t@),
                None => self.target() is None,
            },
    {
        match &self.target {
            Some(t) => Some(t.as_str()),
            None => None,
        }
    }

    /// The C text of a named type.
    fn translate_path(&self, ident: &str, argument: &Option<Box<Ty>>) -> (out: Result<
        String,
        TranslationError,
    >)
        ensures
            text_of(out) == (if ident@ == "Option"@ {
                match argument {
                    Some(inner) => translated_type(inner@, self.setting()),
                    None => Err(TranslationError::MissingArgument),
                }
            } else {
                Ok(named_type(ident@, self.setting()))
            }),
        decreases argument, 3nat,
    {
        if same_text(ident, "Option") {
            match argument {
                Some(inner) => self.translate_type(inner),
                None => Err(TranslationError::MissingArgument),
            }
        } else {
            Ok(self.translate_named_type(ident))
        }
    }

    /// The C text of an array.
    fn translate_array(&self, elem: &Ty, len: &Expr) -> (out: Result<String, TranslationError>)
        ensures
            text_of(out) == (match translated_type(elem@, self.setting()) {
                Err(e) => Err(e),
                Ok(elem) => match translated_expr(len@) {
                    Err(e) => Err(e),
                    Ok(len) => Ok(elem + "["@ + len + "]"@),
                },
            }),
        decreases elem, 3nat,
    {
        let mut out = match self.translate_type(elem) {
            Ok(elem) => elem,
            Err(e) => { return Err(e); },
        };
        let len = match translate_expr(len) {
            Ok(len) => len,
            Err(e) => { return Err(e); },
        };
        out.append("[");
        out.append(len.as_str());
        out.append("]");
        Ok(out)
    }

    /// The C text of a pointer to `elem`.
    fn translate_ptr(&self, mutable: bool, elem: &Ty) -> (out: Result<String, TranslationError>)
        ensures
            text_of(out) == translated_ptr(mutable, elem@, self.setting()),
        decreases elem, 3nat,
    {
        let qualifier = if mutable {
            ""
        } else {
            "const"
        };
        proof {
            reveal_strlit("");
        }
        assert(qualifier@ =~= pointer_qualifier(mutable));
        match elem {
            Ty::BareFn { .. } => self.translate_type(elem),
            Ty::Ptr { .. } => {
                let mut out = match self.translate_type(elem) {
                    Ok(inner) => inner,
                    Err(e) => { return Err(e); },
                };
                out.append(" ");
                out.append(qualifier);
                out.append("*");
                Ok(out)
            },
            Ty::Array { elem: _, len } => {
                let len = match translate_expr(len) {
                    Ok(len) => len,
                    Err(e) => { return Err(e); },
                };
                let inner = match self.translate_type(elem) {
                    Ok(inner) => inner,
                    Err(e) => { return Err(e); },
                };
                let mut out = qualifier.to_string();
                out.append(" ");
                out.append(inner.as_str());
                out.append(" [");
                out.append(len.as_str());
                out.append("]");
                Ok(out)
            },
            _ => {
                let inner = match self.translate_type(elem) {
                    Ok(inner) => inner,
                    Err(e) => { return Err(e); },
                };
                let mut out = qualifier.to_string();
                out.append(" ");
                out.append(inner.as_str());
                out.append("*");
                Ok(out)
            },
        }
    }
}

/// The C text of a function pointer, from the text of its return type,
/// the tag of its calling convention and its arguments.
fn function_pointer_text(ret: String, tag: &str, args: &Vec<String>) -> (out: String)
    ensures
        out@ == function_pointer(ret@, tag@, views(args@)),
{
    let list = join(args, ", ");
    if contains(ret.as_str(), "(*)") {
        let mut nested = "(*(".to_string();
        nested.append(tag);
        nested.append("*)(");
        nested.append(list.as_str());
        nested.append("))");
        replace_all(ret.as_str(), "(*)", nested.as_str())
    } else {
        let mut out = ret;
        out.append("(");
        out.append(tag);
        out.append("*)(");
        out.append(list.as_str());
        out.append(")");
        out
    }
}

/// The parts of a signature with their texts as characters.
pub open spec fn parts_of(out: Result<(String, Vec<String>, bool), TranslationError>) -> Result<
    (Seq<char>, Seq<Seq<char>>, bool),
    TranslationError,
> {
    match out {
        Ok((ret, params, variadic)) => Ok((ret@, views(params@), variadic)),
        Err(e) => Err(e),
    }
}

impl Translator {
    /// The parts of a function pointer's C text: its return type, its
    /// parameters in order, and whether it is variadic.
    pub fn translate_signature_partial(&self, function: &Ty) -> (out: Result<
        (String, Vec<String>, bool),
        TranslationError,
    >)
        ensures
            parts_of(out) == signature_parts(function@, self.setting()),
    {
        match function {
            Ty::BareFn { inputs, variadic, output, .. } => {
                let params = match self.translate_inputs(inputs, Ghost(function)) {
                    Ok(params) => params,
                    Err(e) => { return Err(e); },
                };
                let ret = match output {
                    None => "void".to_string(),
                    Some(ty) => match self.translate_type(ty) {
                        Ok(ret) => ret,
                        Err(e) => { return Err(e); },
                    },
                };
                Ok((ret, params, *variadic))
            },
            _ => Err(TranslationError::UnsupportedType),
        }
    }
}

/// Translation is a function of the shape of the type: whatever
/// `translate_type` returns for two types of the same shape is the same
/// text, or the same error.
pub proof fn lemma_translation_is_a_function(
    translator: Translator,
    a: Ty,
    b: Ty,
    first: Result<String, TranslationError>,
    second: Result<String, TranslationError>,
)
    requires
        a@ == b@,
        text_of(first) == translated_type(a@, translator.setting()),
        text_of(second) == translated_type(b@, translator.setting()),
    ensures
        text_of(first) == text_of(second),
{
}

/// Every named type but `Option` has a translation: its own name where
/// it is declared as a struct or union, and its C name by the table of
/// primitive types anywhere else.
pub proof fn lemma_named_types_translate(
    ident: Seq<char>,
    argument: Option<Box<TyView>>,
    setting: Setting,
)
    requires
        ident != "Option"@,
    ensures
        translated_type(TyView::Path { ident, argument }, setting) == Ok::<
            Seq<char>,
            TranslationError,
        >(if setting.declares(ident) {
            ident
        } else {
            primitive_name(ident)
        }),
{
}

/// The sum of two integer literals stands in C as it is written: it is
/// not evaluated.
pub proof fn lemma_sums_are_kept(left: Seq<char>, right: Seq<char>)
    ensures
        translated_expr(
            ExprView::Binary {
                left: Box::new(ExprView::Int { text: left }),
                op: BinOp::Add,
                right: Box::new(ExprView::Int { text: right }),
            },
        ) == Ok::<Seq<char>, TranslationError>(left + " + "@ + right),
{
    reveal_with_fuel(translated_expr, 2);
}

/// Two settings are alike on a type where they differ in nothing that the
/// translation of the type looks at: every name in the type is a struct
/// in both or in neither, and a union in both or in neither, and every
/// calling convention in it has the same tag on both targets.
pub open spec fn alike_on(ty: TyView, a: Setting, b: Setting) -> bool
    decreases ty,
{
    match ty {
        TyView::Path { ident, argument } => {
            &&& a.structs.contains(ident) == b.structs.contains(ident)
            &&& a.unions.contains(ident) == b.unions.contains(ident)
            &&& argument matches Some(inner) ==> alike_on(*inner, a, b)
        },
        TyView::Ptr { elem, .. } => alike_on(*elem, a, b),
        TyView::Reference { elem, .. } => alike_on(*elem, a, b),
        TyView::Array { elem, .. } => alike_on(*elem, a, b),
        TyView::BareFn { abi, inputs, output, .. } => {
            &&& translated_abi(abi, a.target) == translated_abi(abi, b.target)
            &&& forall|i: int| 0 <= i < inputs.len() ==> alike_on(#[trigger] inputs[i], a, b)
            &&& output matches Some(ty) ==> alike_on(*ty, a, b)
        },
        _ => true,
    }
}

/// The translation of a type is the same in any two settings that are
/// alike on it: it is a function of the shape of the type, of which names
/// in it are declared, and of the tags of the conventions in it, and of
/// nothing else that a translator holds.
pub proof fn lemma_translation_goes_by_the_type(ty: TyView, a: Setting, b: Setting)
    requires
        alike_on(ty, a, b),
    ensures
        translated_type(ty, a) == translated_type(ty, b),
    decreases ty, 1nat,
{
    reveal_with_fuel(alike_on, 2);
    reveal_with_fuel(translated_type, 2);
    match ty {
        TyView::Path { ident, argument } => {
            match argument {
                Some(inner) => {
                    lemma_translation_goes_by_the_type(*inner, a, b);
                },
                None => {},
            }
            assert(a.declares(ident) == b.declares(ident));
        },
        TyView::Ptr { mutable, elem } => {
            lemma_translation_goes_by_the_type(*elem, a, b);
        },
        TyView::Reference { mutable, elem } => {
            match *elem {
                TyView::Array { elem: inner, len } => {
                    lemma_translation_goes_by_the_type(*inner, a, b);
                },
                _ => {},
            }
        },
        TyView::Array { elem, len } => {
            lemma_translation_goes_by_the_type(*elem, a, b);
        },
        TyView::BareFn { abi, lifetimes, inputs, variadic, output } => {
            lemma_translations_go_by_the_types(inputs, a, b);
            match output {
                Some(ty) => {
                    lemma_translation_goes_by_the_type(*ty, a, b);
                },
                None => {},
            }
        },
        _ => {},
    }
}

/// The translations of types are the same in any two settings that are
/// alike on each of them.
pub proof fn lemma_translations_go_by_the_types(types: Seq<TyView>, a: Setting, b: Setting)
    requires
        forall|i: int| 0 <= i < types.len() ==> alike_on(#[trigger] types[i], a, b),
    ensures
        translated_types(types, a) == translated_types(types, b),
    decreases types, 0nat,
{
    if types.len() > 0 {
        assert forall|i: int| 0 <= i < types.drop_last().len() implies alike_on(
            #[trigger] types.drop_last()[i],
            a,
            b,
        ) by {
            assert(types.drop_last()[i] == types[i]);
        }
        lemma_translations_go_by_the_types(types.drop_last(), a, b);
        lemma_translation_goes_by_the_type(types.last(), a, b);
    }
}

/// A primitive type has the same translation for every translator that
/// does not know its name as a struct or union.
pub proof fn lemma_primitives_translate_alike(ident: Seq<char>, a: Setting, b: Setting)
    requires
        !a.declares(ident),
        !b.declares(ident),
    ensures
        translated_type(TyView::Path { ident, argument: None }, a) == translated_type(
            TyView::Path { ident, argument: None },
            b,
        ),
{
    lemma_translation_goes_by_the_type(TyView::Path { ident, argument: None }, a, b);
}

} // verus!
