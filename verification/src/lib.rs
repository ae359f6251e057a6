//! A validator of FFI bindings.
//!
//! Bindings to a C library declare, in Rust, the structs, unions, constants,
//! statics, functions and type aliases that a C header declares. To test
//! that the two agree, a pair of programs is generated, one in Rust and
//! one in C, whose routines compare sizes, alignments, field offsets,
//! values of constants, signedness and function pointers.
//!
//! This library decides what those programs hold:
//!
//! * [`ffi_items`] collects what a declaration tree declares;
//! * [`translator`] writes the type of a declaration as a C type;
//! * [`rules`], [`generator`] and [`resolver`] hold the rules that a user
//!   registers and say what they make of an item;
//! * [`filter`] takes out the items that the rules leave out;
//! * [`template`] and [`emitter`] give every item that is kept its tests,
//!   with the names and types that the two programs are written from.
//!
//! Reading a crate from disk, rendering the programs and compiling them is
//! left to the caller.

pub mod ast;
pub mod emitter;
pub mod ffi_items;
pub mod filter;
pub mod generator;
pub mod resolver;
pub mod rules;
pub mod rustc_version;
pub mod syntax;
pub mod template;
pub mod text;
pub mod translator;

pub use crate::ast::{Abi, Const, Field, Fn, Parameter, Static, Struct, Type, Union};
pub use crate::generator::{GenerationError, TestGenerator};
pub use crate::rules::{MapInput, TyKind};
pub use crate::rustc_version::RustcVersion;

use vstd::prelude::*;

verus! {

/// The programming language that the C side of the tests is written in.
#[derive(Debug, Clone, Copy, PartialEq, Eq, Structural)]
pub enum Language {
    /// The C programming language.
    C,
    /// The C++ programming language.
    CXX,
}

impl Default for Language {
    fn default() -> (language: Self)
        ensures
            language == Language::C,
    {
        Language::C
    }
}

impl Language {
    /// The extension of a source file in this language.
    pub open spec fn spec_extension(self) -> Seq<char> {
        match self {
            Language::C => "c"@,
            Language::CXX => "cpp"@,
        }
    }

    /// The name of the language, for messages.
    pub open spec fn spec_display_name(self) -> Seq<char> {
        match self {
            Language::C => "C"@,
            Language::CXX => "C++"@,
        }
    }

    /// The extension of a source file in this language.
    pub fn extension(&self) -> (extension: &'static str)
        ensures
            extension@ == self.spec_extension(),
    {
        match self {
            Language::C => "c",
            Language::CXX => "cpp",
        }
    }

    /// The name of the language, for messages.
    pub fn display_name(&self) -> (name: &'static str)
        ensures
            name@ == self.spec_display_name(),
    {
        match self {
            Language::C => "C",
            Language::CXX => "C++",
        }
    }
}

/// A place to which the C qualifier `volatile` could apply.
#[derive(Debug, Clone, Copy)]
#[non_exhaustive]
pub enum VolatileItemKind<'a> {
    /// A field of a struct.
    StructField(&'a Struct, &'a Field),
    /// A foreign static.
    Static(&'a Static),
    /// An argument of a function.
    FnArgument(&'a Fn, &'a Parameter),
    /// The return type of a function.
    FnReturnType(&'a Fn),
}

} // verus!
