//! The declarations that are checked against a C header, as plain data.
//!
//! A declaration tree is flattened into these items: each records the name
//! it was declared with and the shapes of the types it mentions. Nothing here
//! refers back to the source text.

use crate::text::same_text;
use vstd::prelude::*;

verus! {

/// The calling convention of a foreign function or function pointer.
#[derive(Debug)]
pub enum Abi {
    /// The C convention, also meant where none is named.
    C,
    /// The Rust convention.
    Rust,
    /// Any other convention, by the name it was declared with.
    Other(String),
}

/// An abi without its storage: the name of an `Other` as characters.
pub enum AbiView {
    C,
    Rust,
    Other(Seq<char>),
}

impl View for Abi {
    type V = AbiView;

    open spec fn view(&self) -> AbiView {
        match self {
            Abi::C => AbiView::C,
            Abi::Rust => AbiView::Rust,
            Abi::Other(name) => AbiView::Other(name@),
        }
    }
}

/// A binary operator of an array length.
#[derive(Debug, Clone, Copy, PartialEq, Eq, Structural)]
pub enum BinOp {
    /// `+`
    Add,
    /// `-`
    Sub,
    /// Any other operator.
    Other,
}

/// The length expression of an array type.
#[derive(Debug)]
pub enum Expr {
    /// An integer literal, as it was written.
    Int { text: String },
    /// A path to a constant, by its last segment.
    Path { ident: String },
    /// A cast of the inner expression to some type.
    Cast { expr: Box<Expr> },
    /// Two expressions joined by an operator.
    Binary { left: Box<Expr>, op: BinOp, right: Box<Expr> },
    /// A literal that is not an integer.
    OtherLit,
    /// Any other expression.
    Other,
}

/// An expression as a mathematical value.
pub enum ExprView {
    Int { text: Seq<char> },
    Path { ident: Seq<char> },
    Cast { expr: Box<ExprView> },
    Binary { left: Box<ExprView>, op: BinOp, right: Box<ExprView> },
    OtherLit,
    Other,
}

impl Expr {
    /// The expression as a mathematical value.
    pub open spec fn model(&self) -> ExprView
        decreases self,
    {
        match self {
            Expr::Int { text } => ExprView::Int { text: text@ },
            Expr::Path { ident } => ExprView::Path { ident: ident@ },
            Expr::Cast { expr } => ExprView::Cast { expr: Box::new(expr.model()) },
            Expr::Binary { left, op, right } => ExprView::Binary {
                left: Box::new(left.model()),
                op: *op,
                right: Box::new(right.model()),
            },
            Expr::OtherLit => ExprView::OtherLit,
            Expr::Other => ExprView::Other,
        }
    }
}

impl View for Expr {
    type V = ExprView;

    open spec fn view(&self) -> ExprView {
        self.model()
    }
}

/// The shape of a declared type.
#[derive(Debug)]
pub enum Ty {
    /// A named type, by the last segment of its path, with the first type
    /// argument of that segment if it has one (`Option<T>` holds `T`).
    Path { ident: String, argument: Option<Box<Ty>> },
    /// A raw pointer, `*mut T` or `*const T`.
    Ptr { mutable: bool, elem: Box<Ty> },
    /// A reference, `&mut T` or `&T`.
    Reference { mutable: bool, elem: Box<Ty> },
    /// An array of fixed length, `[T; len]`.
    Array { elem: Box<Ty>, len: Expr },
    /// A function pointer. `output` is `None` where no return type is written.
    BareFn {
        abi: Option<Abi>,
        lifetimes: bool,
        inputs: Vec<Ty>,
        variadic: bool,
        output: Option<Box<Ty>>,
    },
    /// The empty tuple, `()`.
    Unit,
    /// The never type, `!`.
    Never,
    /// Any other shape.
    Other,
}

/// The shape of a declared type as a mathematical value.
pub enum TyView {
    Path { ident: Seq<char>, argument: Option<Box<TyView>> },
    Ptr { mutable: bool, elem: Box<TyView> },
    Reference { mutable: bool, elem: Box<TyView> },
    Array { elem: Box<TyView>, len: ExprView },
    BareFn {
        abi: Option<AbiView>,
        lifetimes: bool,
        inputs: Seq<TyView>,
        variadic: bool,
        output: Option<Box<TyView>>,
    },
    Unit,
    Never,
    Other,
}

impl Ty {
    /// The shape as a mathematical value.
    pub open spec fn model(&self) -> TyView
        decreases self,
    {
        match self {
            Ty::Path { ident, argument } => TyView::Path {
                ident: ident@,
                argument: match argument {
                    Some(inner) => Some(Box::new(inner.model())),
                    None => None,
                },
            },
            Ty::Ptr { mutable, elem } => TyView::Ptr { mutable: *mutable, elem: Box::new(elem.model()) },
            Ty::Reference { mutable, elem } => TyView::Reference {
                mutable: *mutable,
                elem: Box::new(elem.model()),
            },
            Ty::Array { elem, len } => TyView::Array { elem: Box::new(elem.model()), len: len@ },
            Ty::BareFn { abi, lifetimes, inputs, variadic, output } => TyView::BareFn {
                abi: match abi {
                    Some(abi) => Some(abi@),
                    None => None,
                },
                lifetimes: *lifetimes,
                inputs: Seq::new(
                    inputs@.len(),
                    |i: int|
                        if 0 <= i < inputs@.len() {
                            inputs@[i].model()
                        } else {
                            TyView::Other
                        },
                ),
                variadic: *variadic,
                output: match output {
                    Some(ty) => Some(Box::new(ty.model())),
                    None => None,
                },
            },
            Ty::Unit => TyView::Unit,
            Ty::Never => TyView::Never,
            Ty::Other => TyView::Other,
        }
    }
}

impl View for Ty {
    type V = TyView;

    open spec fn view(&self) -> TyView {
        self.model()
    }
}

/// A field of a struct or union.
#[derive(Debug)]
pub struct Field {
    pub public: bool,
    pub ident: String,
    pub ty: Ty,
}

/// A parameter of a foreign function.
#[derive(Debug)]
pub struct Parameter {
    pub ident: String,
    pub ty: Ty,
}

/// A constant.
#[derive(Debug)]
pub struct Const {
    pub public: bool,
    pub ident: String,
    pub ty: Ty,
}

/// A foreign static.
#[derive(Debug)]
pub struct Static {
    pub public: bool,
    pub abi: Abi,
    pub ident: String,
    pub link_name: Option<String>,
    pub ty: Ty,
}

/// A struct.
#[derive(Debug)]
pub struct Struct {
    pub public: bool,
    pub ident: String,
    pub fields: Vec<Field>,
}

/// A union.
#[derive(Debug)]
pub struct Union {
    pub public: bool,
    pub ident: String,
    pub fields: Vec<Field>,
}

/// A type alias.
#[derive(Debug)]
pub struct Type {
    pub public: bool,
    pub ident: String,
    pub ty: Ty,
}

/// A foreign function.
#[derive(Debug)]
pub struct Fn {
    pub public: bool,
    pub abi: Abi,
    pub ident: String,
    pub link_name: Option<String>,
    pub parameters: Vec<Parameter>,
    pub return_type: Option<Ty>,
}

/// A function declared in a foreign block, which names the convention.
#[derive(Debug)]
pub struct ForeignFn {
    pub public: bool,
    pub ident: String,
    pub link_name: Option<String>,
    pub parameters: Vec<Parameter>,
    pub return_type: Option<Ty>,
}

/// A static declared in a foreign block, which names the convention.
#[derive(Debug)]
pub struct ForeignStatic {
    pub public: bool,
    pub ident: String,
    pub link_name: Option<String>,
    pub ty: Ty,
}

/// An item of a foreign block.
#[derive(Debug)]
pub enum ForeignItem {
    /// A function.
    Fn(ForeignFn),
    /// A static.
    Static(ForeignStatic),
    /// Anything else.
    Other,
}

/// An item of a declaration tree, after every macro has been expanded.
#[derive(Debug)]
pub enum Item {
    /// A type alias.
    Type(Type),
    /// A constant.
    Const(Const),
    /// A struct.
    Struct(Struct),
    /// A union.
    Union(Union),
    /// A foreign block, with the convention it names if it names one.
    ForeignMod { abi: Option<Abi>, items: Vec<ForeignItem> },
    /// A module, with the items it holds.
    Mod { content: Vec<Item> },
    /// Anything else.
    Other,
}

impl Clone for Abi {
    fn clone(&self) -> (copy: Self)
        ensures
            copy == *self,
    {
        match self {
            Abi::C => Abi::C,
            Abi::Rust => Abi::Rust,
            Abi::Other(name) => Abi::Other(name.clone()),
        }
    }
}

impl Abi {
    /// The convention that `name` names.
    pub fn from_name(name: &str) -> (abi: Self)
        ensures
            abi@ == (if name@ == "C"@ {
                AbiView::C
            } else if name@ == "Rust"@ {
                AbiView::Rust
            } else {
                AbiView::Other(name@)
            }),
    {
        if same_text(name, "C") {
            Abi::C
        } else if same_text(name, "Rust") {
            Abi::Rust
        } else {
            Abi::Other(name.to_string())
        }
    }
}

impl Field {
    /// The name the field was declared with.
    pub fn ident(&self) -> (ident: &str)
        ensures
            ident@ == self.ident@,
    {
        self.ident.as_str()
    }
}

impl Parameter {
    /// The name the parameter was declared with.
    pub fn ident(&self) -> (ident: &str)
        ensures
            ident@ == self.ident@,
    {
        self.ident.as_str()
    }
}

impl Const {
    /// The name the constant was declared with.
    pub fn ident(&self) -> (ident: &str)
        ensures
            ident@ == self.ident@,
    {
        self.ident.as_str()
    }
}

impl Static {
    /// The name the static was declared with.
    pub fn ident(&self) -> (ident: &str)
        ensures
            ident@ == self.ident@,
    {
        self.ident.as_str()
    }

    /// The name the static is linked under, where one is given.
    pub fn link_name(&self) -> (name: Option<&str>)
        ensures
            match name {
                Some(name) => self.link_name matches Some(given) && name@ == given@,
                None => self.link_name is None,
            },
    {
        match &self.link_name {
            Some(name) => Some(name.as_str()),
            None => None,
        }
    }
}

impl Struct {
    /// The name the struct was declared with.
    pub fn ident(&self) -> (ident: &str)
        ensures
            ident@ == self.ident@,
    {
        self.ident.as_str()
    }
}

impl Union {
    /// The name the union was declared with.
    pub fn ident(&self) -> (ident: &str)
        ensures
            ident@ == self.ident@,
    {
        self.ident.as_str()
    }
}

impl Type {
    /// The name the alias was declared with.
    pub fn ident(&self) -> (ident: &str)
        ensures
            ident@ == self.ident@,
    {
        self.ident.as_str()
    }
}

impl Fn {
    /// The name the function was declared with.
    pub fn ident(&self) -> (ident: &str)
        ensures
            ident@ == self.ident@,
    {
        self.ident.as_str()
    }

    /// The name the function is linked under, where one is given.
    pub fn link_name(&self) -> (name: Option<&str>)
        ensures
            match name {
                Some(name) => self.link_name matches Some(given) && name@ == given@,
                None => self.link_name is None,
            },
    {
        match &self.link_name {
            Some(name) => Some(name.as_str()),
            None => None,
        }
    }
}

} // verus!
