//! The rules a user registers: how items are named in C, which are left
//! out, which are volatile and which parameters are arrays.
//!
//! A rule is a closure of the user's. Nothing is known of what it computes
//! but its own contract, so a rule is described here by the answers it may
//! give: [`SkipRule::decides`], [`RenameRule::gives`] and their like hold of
//! exactly those.

use crate::ast::{Const, Field, Fn, Parameter, Static, Struct, Type};
use crate::VolatileItemKind;
use vstd::prelude::*;

verus! {

/// What a type name refers to.
#[derive(Debug, Clone, Copy, PartialEq, Eq, Structural)]
pub enum TyKind {
    /// The name of a struct.
    Struct,
    /// The name of a union.
    Union,
    /// Any other name.
    Other,
}

/// What a rule is asked about.
pub enum MapInput<'a> {
    /// A struct.
    Struct(&'a Struct),
    /// A field, with the struct it belongs to.
    Field(&'a Struct, &'a Field),
    /// The type of a field, with the struct the field belongs to.
    FieldType(&'a Struct, &'a Field),
    /// A type alias.
    Alias(&'a Type),
    /// A constant.
    Const(&'a Const),
    /// A foreign static.
    Static(&'a Static),
    /// A foreign function.
    Fn(&'a Fn),
    /// The C name of a type, with what it refers to.
    Type(&'a str, TyKind),
}

/// A predicate on items, behind which a closure of the user stands.
pub(crate) trait SkipPredicate {
    /// The rule may be asked about `item`.
    spec fn accepts(&self, item: MapInput<'_>) -> bool;

    /// `skip` is an answer the rule may give for `item`.
    spec fn decides(&self, item: MapInput<'_>, skip: bool) -> bool;

    /// Asks the rule about `item`.
    fn test(&self, item: &MapInput<'_>) -> (skip: bool)
        requires
            self.accepts(*item),
        ensures
            self.decides(*item, skip),
    ;
}

/// A naming of items, behind which a closure of the user stands.
pub(crate) trait Renaming {
    /// The rule may be asked about `item`.
    spec fn accepts(&self, item: MapInput<'_>) -> bool;

    /// `name` is an answer the rule may give for `item`; `None` leaves the
    /// item to the rules after it.
    spec fn gives(&self, item: MapInput<'_>, name: Option<String>) -> bool;

    /// Asks the rule about `item`.
    fn rename(&self, item: &MapInput<'_>) -> (name: Option<String>)
        requires
            self.accepts(*item),
        ensures
            self.gives(*item, name),
    ;
}

/// A predicate on the places where `volatile` can stand.
pub(crate) trait VolatilePredicate {
    /// The rule may be asked about `site`.
    spec fn accepts(&self, site: VolatileItemKind<'_>) -> bool;

    /// `volatile` is an answer the rule may give for `site`.
    spec fn decides(&self, site: VolatileItemKind<'_>, volatile: bool) -> bool;

    /// Asks the rule about `site`.
    fn test(&self, site: VolatileItemKind<'_>) -> (volatile: bool)
        requires
            self.accepts(site),
        ensures
            self.decides(site, volatile),
    ;
}

/// A predicate on the parameters of functions.
pub(crate) trait ArrayPredicate {
    /// The rule may be asked about `parameter` of `function`.
    spec fn accepts(&self, function: &Fn, parameter: &Parameter) -> bool;

    /// `array` is an answer the rule may give for `parameter` of `function`.
    spec fn decides(&self, function: &Fn, parameter: &Parameter, array: bool) -> bool;

    /// Asks the rule about `parameter` of `function`.
    fn test(&self, function: &Fn, parameter: &Parameter) -> (array: bool)
        requires
            self.accepts(function, parameter),
        ensures
            self.decides(function, parameter, array),
    ;
}

/// A predicate on names.
pub(crate) trait NamePredicate {
    /// The rule may be asked about `ident`.
    spec fn accepts(&self, ident: &str) -> bool;

    /// `skip` is an answer the rule may give for `ident`.
    spec fn decides(&self, ident: &str, skip: bool) -> bool;

    /// Asks the rule about `ident`.
    fn test(&self, ident: &str) -> (skip: bool)
        requires
            self.accepts(ident),
        ensures
            self.decides(ident, skip),
    ;
}

/// A predicate on structs as a rule: it leaves every other item in.
pub(crate) struct StructSkip<F> {
    pub(crate) f: F,
}

impl<F: core::ops::Fn(&Struct) -> bool> SkipPredicate for StructSkip<F> {
    open spec fn accepts(&self, item: MapInput<'_>) -> bool {
        item matches MapInput::Struct(s) ==> call_requires(self.f, (s,))
    }

    open spec fn decides(&self, item: MapInput<'_>, skip: bool) -> bool {
        match item {
            MapInput::Struct(s) => call_ensures(self.f, (s,), skip),
            _ => !skip,
        }
    }

    fn test(&self, item: &MapInput<'_>) -> (skip: bool) {
        match item {
            MapInput::Struct(s) => (self.f)(s),
            _ => false,
        }
    }
}

/// A predicate on fields as a rule: it leaves every other item in.
pub(crate) struct FieldSkip<F> {
    pub(crate) f: F,
}

impl<F: core::ops::Fn(&Struct, &Field) -> bool> SkipPredicate for FieldSkip<F> {
    open spec fn accepts(&self, item: MapInput<'_>) -> bool {
        item matches MapInput::Field(s, field) ==> call_requires(self.f, (s, field))
    }

    open spec fn decides(&self, item: MapInput<'_>, skip: bool) -> bool {
        match item {
            MapInput::Field(s, field) => call_ensures(self.f, (s, field), skip),
            _ => !skip,
        }
    }

    fn test(&self, item: &MapInput<'_>) -> (skip: bool) {
        match item {
            MapInput::Field(s, field) => (self.f)(s, field),
            _ => false,
        }
    }
}

/// A predicate on the types of fields as a rule: it leaves every other item in.
pub(crate) struct FieldTypeSkip<F> {
    pub(crate) f: F,
}

impl<F: core::ops::Fn(&Struct, &Field) -> bool> SkipPredicate for FieldTypeSkip<F> {
    open spec fn accepts(&self, item: MapInput<'_>) -> bool {
        item matches MapInput::FieldType(s, field) ==> call_requires(self.f, (s, field))
    }

    open spec fn decides(&self, item: MapInput<'_>, skip: bool) -> bool {
        match item {
            MapInput::FieldType(s, field) => call_ensures(self.f, (s, field), skip),
            _ => !skip,
        }
    }

    fn test(&self, item: &MapInput<'_>) -> (skip: bool) {
        match item {
            MapInput::FieldType(s, field) => (self.f)(s, field),
            _ => false,
        }
    }
}

/// A predicate on type aliases as a rule: it leaves every other item in.
pub(crate) struct AliasSkip<F> {
    pub(crate) f: F,
}

impl<F: core::ops::Fn(&Type) -> bool> SkipPredicate for AliasSkip<F> {
    open spec fn accepts(&self, item: MapInput<'_>) -> bool {
        item matches MapInput::Alias(alias) ==> call_requires(self.f, (alias,))
    }

    open spec fn decides(&self, item: MapInput<'_>, skip: bool) -> bool {
        match item {
            MapInput::Alias(alias) => call_ensures(self.f, (alias,), skip),
            _ => !skip,
        }
    }

    fn test(&self, item: &MapInput<'_>) -> (skip: bool) {
        match item {
            MapInput::Alias(alias) => (self.f)(alias),
            _ => false,
        }
    }
}

/// A predicate on constants as a rule: it leaves every other item in.
pub(crate) struct ConstSkip<F> {
    pub(crate) f: F,
}

impl<F: core::ops::Fn(&Const) -> bool> SkipPredicate for ConstSkip<F> {
    open spec fn accepts(&self, item: MapInput<'_>) -> bool {
        item matches MapInput::Const(constant) ==> call_requires(self.f, (constant,))
    }

    open spec fn decides(&self, item: MapInput<'_>, skip: bool) -> bool {
        match item {
            MapInput::Const(constant) => call_ensures(self.f, (constant,), skip),
            _ => !skip,
        }
    }

    fn test(&self, item: &MapInput<'_>) -> (skip: bool) {
        match item {
            MapInput::Const(constant) => (self.f)(constant),
            _ => false,
        }
    }
}

/// A predicate on foreign statics as a rule: it leaves every other item in.
pub(crate) struct StaticSkip<F> {
    pub(crate) f: F,
}

impl<F: core::ops::Fn(&Static) -> bool> SkipPredicate for StaticSkip<F> {
    open spec fn accepts(&self, item: MapInput<'_>) -> bool {
        item matches MapInput::Static(item) ==> call_requires(self.f, (item,))
    }

    open spec fn decides(&self, item: MapInput<'_>, skip: bool) -> bool {
        match item {
            MapInput::Static(item) => call_ensures(self.f, (item,), skip),
            _ => !skip,
        }
    }

    fn test(&self, item: &MapInput<'_>) -> (skip: bool) {
        match item {
            MapInput::Static(item) => (self.f)(item),
            _ => false,
        }
    }
}

/// A predicate on foreign functions as a rule: it leaves every other item in.
pub(crate) struct FnSkip<F> {
    pub(crate) f: F,
}

impl<F: core::ops::Fn(&Fn) -> bool> SkipPredicate for FnSkip<F> {
    open spec fn accepts(&self, item: MapInput<'_>) -> bool {
        item matches MapInput::Fn(function) ==> call_requires(self.f, (function,))
    }

    open spec fn decides(&self, item: MapInput<'_>, skip: bool) -> bool {
        match item {
            MapInput::Fn(function) => call_ensures(self.f, (function,), skip),
            _ => !skip,
        }
    }

    fn test(&self, item: &MapInput<'_>) -> (skip: bool) {
        match item {
            MapInput::Fn(function) => (self.f)(function),
            _ => false,
        }
    }
}

/// A naming of constants as a rule: it names no other item.
pub(crate) struct ConstRename<F> {
    pub(crate) f: F,
}

impl<F: core::ops::Fn(&Const) -> Option<String>> Renaming for ConstRename<F> {
    open spec fn accepts(&self, item: MapInput<'_>) -> bool {
        item matches MapInput::Const(constant) ==> call_requires(self.f, (constant,))
    }

    open spec fn gives(&self, item: MapInput<'_>, name: Option<String>) -> bool {
        match item {
            MapInput::Const(constant) => call_ensures(self.f, (constant,), name),
            _ => name is None,
        }
    }

    fn rename(&self, item: &MapInput<'_>) -> (name: Option<String>) {
        match item {
            MapInput::Const(constant) => (self.f)(constant),
            _ => None,
        }
    }
}

/// A naming of fields as a rule: it names no other item.
pub(crate) struct FieldRename<F> {
    pub(crate) f: F,
}

impl<F: core::ops::Fn(&Struct, &Field) -> Option<String>> Renaming for FieldRename<F> {
    open spec fn accepts(&self, item: MapInput<'_>) -> bool {
        item matches MapInput::Field(s, field) ==> call_requires(self.f, (s, field))
    }

    open spec fn gives(&self, item: MapInput<'_>, name: Option<String>) -> bool {
        match item {
            MapInput::Field(s, field) => call_ensures(self.f, (s, field), name),
            _ => name is None,
        }
    }

    fn rename(&self, item: &MapInput<'_>) -> (name: Option<String>) {
        match item {
            MapInput::Field(s, field) => (self.f)(s, field),
            _ => None,
        }
    }
}

/// A naming of foreign functions as a rule: it names no other item.
pub(crate) struct FnRename<F> {
    pub(crate) f: F,
}

impl<F: core::ops::Fn(&Fn) -> Option<String>> Renaming for FnRename<F> {
    open spec fn accepts(&self, item: MapInput<'_>) -> bool {
        item matches MapInput::Fn(function) ==> call_requires(self.f, (function,))
    }

    open spec fn gives(&self, item: MapInput<'_>, name: Option<String>) -> bool {
        match item {
            MapInput::Fn(function) => call_ensures(self.f, (function,), name),
            _ => name is None,
        }
    }

    fn rename(&self, item: &MapInput<'_>) -> (name: Option<String>) {
        match item {
            MapInput::Fn(function) => (self.f)(function),
            _ => None,
        }
    }
}

/// A naming of type names as a rule: it names no other item.
pub(crate) struct TypeRename<F> {
    pub(crate) f: F,
}

impl<F: core::ops::Fn(&str, TyKind) -> Option<String>> Renaming for TypeRename<F> {
    open spec fn accepts(&self, item: MapInput<'_>) -> bool {
        item matches MapInput::Type(ty, kind) ==> call_requires(self.f, (ty, kind))
    }

    open spec fn gives(&self, item: MapInput<'_>, name: Option<String>) -> bool {
        match item {
            MapInput::Type(ty, kind) => call_ensures(self.f, (ty, kind), name),
            _ => name is None,
        }
    }

    fn rename(&self, item: &MapInput<'_>) -> (name: Option<String>) {
        match item {
            MapInput::Type(ty, kind) => (self.f)(ty, *kind),
            _ => None,
        }
    }
}

/// A predicate on the places where `volatile` can stand, as a rule.
pub(crate) struct VolatileCheck<F> {
    pub(crate) f: F,
}

impl<F: core::ops::Fn(VolatileItemKind<'_>) -> bool> VolatilePredicate for VolatileCheck<F> {
    open spec fn accepts(&self, site: VolatileItemKind<'_>) -> bool {
        call_requires(self.f, (site,))
    }

    open spec fn decides(&self, site: VolatileItemKind<'_>, volatile: bool) -> bool {
        call_ensures(self.f, (site,), volatile)
    }

    fn test(&self, site: VolatileItemKind<'_>) -> (volatile: bool) {
        (self.f)(site)
    }
}

/// A predicate on the parameters of functions, as a rule.
pub(crate) struct ArrayCheck<F> {
    pub(crate) f: F,
}

impl<F: core::ops::Fn(&Fn, &Parameter) -> bool> ArrayPredicate for ArrayCheck<F> {
    open spec fn accepts(&self, function: &Fn, parameter: &Parameter) -> bool {
        call_requires(self.f, (function, parameter))
    }

    open spec fn decides(&self, function: &Fn, parameter: &Parameter, array: bool) -> bool {
        call_ensures(self.f, (function, parameter), array)
    }

    fn test(&self, function: &Fn, parameter: &Parameter) -> (array: bool) {
        (self.f)(function, parameter)
    }
}

/// A predicate on names, as a rule.
pub(crate) struct NameCheck<F> {
    pub(crate) f: F,
}

impl<F: core::ops::Fn(&str) -> bool> NamePredicate for NameCheck<F> {
    open spec fn accepts(&self, ident: &str) -> bool {
        call_requires(self.f, (ident,))
    }

    open spec fn decides(&self, ident: &str, skip: bool) -> bool {
        call_ensures(self.f, (ident,), skip)
    }

    fn test(&self, ident: &str) -> (skip: bool) {
        (self.f)(ident)
    }
}

/// A registered rule that may leave an item out.
pub struct SkipRule {
    rule: Box<dyn SkipPredicate>,
}

impl SkipRule {
    #[verifier::type_invariant]
    spec fn total(self) -> bool {
        forall|item: MapInput<'_>| self.rule.accepts(item)
    }

    /// `skip` is an answer the rule may give for `item`.
    pub closed spec fn decides(&self, item: MapInput<'_>, skip: bool) -> bool {
        self.rule.decides(item, skip)
    }

    /// Asks the rule about `item`.
    pub fn test(&self, item: &MapInput<'_>) -> (skip: bool)
        ensures
            self.decides(*item, skip),
    {
        proof {
            use_type_invariant(self);
        }
        self.rule.test(item)
    }

    /// The rule that asks `f` about structs and leaves every other item in.
    pub fn for_structs(f: impl core::ops::Fn(&Struct) -> bool + 'static) -> (rule: Self)
        requires
            forall|s: &Struct| call_requires(f, (s,)),
        ensures
            forall|item: MapInput<'_>, skip: bool|
                rule.decides(item, skip) <==> match item {
                    MapInput::Struct(s) => call_ensures(f, (s,), skip),
                    _ => !skip,
                },
    {
        SkipRule { rule: Box::new(StructSkip { f }) }
    }

    /// The rule that asks `f` about fields and leaves every other item in.
    pub fn for_fields(f: impl core::ops::Fn(&Struct, &Field) -> bool + 'static) -> (rule: Self)
        requires
            forall|s: &Struct, field: &Field| call_requires(f, (s, field)),
        ensures
            forall|item: MapInput<'_>, skip: bool|
                rule.decides(item, skip) <==> match item {
                    MapInput::Field(s, field) => call_ensures(f, (s, field), skip),
                    _ => !skip,
                },
    {
        SkipRule { rule: Box::new(FieldSkip { f }) }
    }

    /// The rule that asks `f` about the types of fields and leaves every other item in.
    pub fn for_field_types(f: impl core::ops::Fn(&Struct, &Field) -> bool + 'static) -> (rule: Self)
        requires
            forall|s: &Struct, field: &Field| call_requires(f, (s, field)),
        ensures
            forall|item: MapInput<'_>, skip: bool|
                rule.decides(item, skip) <==> match item {
                    MapInput::FieldType(s, field) => call_ensures(f, (s, field), skip),
                    _ => !skip,
                },
    {
        SkipRule { rule: Box::new(FieldTypeSkip { f }) }
    }

    /// The rule that asks `f` about type aliases and leaves every other item in.
    pub fn for_aliases(f: impl core::ops::Fn(&Type) -> bool + 'static) -> (rule: Self)
        requires
            forall|alias: &Type| call_requires(f, (alias,)),
        ensures
            forall|item: MapInput<'_>, skip: bool|
                rule.decides(item, skip) <==> match item {
                    MapInput::Alias(alias) => call_ensures(f, (alias,), skip),
                    _ => !skip,
                },
    {
        SkipRule { rule: Box::new(AliasSkip { f }) }
    }

    /// The rule that asks `f` about constants and leaves every other item in.
    pub fn for_constants(f: impl core::ops::Fn(&Const) -> bool + 'static) -> (rule: Self)
        requires
            forall|constant: &Const| call_requires(f, (constant,)),
        ensures
            forall|item: MapInput<'_>, skip: bool|
                rule.decides(item, skip) <==> match item {
                    MapInput::Const(constant) => call_ensures(f, (constant,), skip),
                    _ => !skip,
                },
    {
        SkipRule { rule: Box::new(ConstSkip { f }) }
    }

    /// The rule that asks `f` about foreign statics and leaves every other item in.
    pub fn for_statics(f: impl core::ops::Fn(&Static) -> bool + 'static) -> (rule: Self)
        requires
            forall|item: &Static| call_requires(f, (item,)),
        ensures
            forall|item: MapInput<'_>, skip: bool|
                rule.decides(item, skip) <==> match item {
                    MapInput::Static(item) => call_ensures(f, (item,), skip),
                    _ => !skip,
                },
    {
        SkipRule { rule: Box::new(StaticSkip { f }) }
    }

    /// The rule that asks `f` about foreign functions and leaves every other item in.
    pub fn for_functions(f: impl core::ops::Fn(&Fn) -> bool + 'static) -> (rule: Self)
        requires
            forall|function: &Fn| call_requires(f, (function,)),
        ensures
            forall|item: MapInput<'_>, skip: bool|
                rule.decides(item, skip) <==> match item {
                    MapInput::Fn(function) => call_ensures(f, (function,), skip),
                    _ => !skip,
                },
    {
        SkipRule { rule: Box::new(FnSkip { f }) }
    }
}

/// A registered rule that may give an item its C name.
pub struct RenameRule {
    rule: Box<dyn Renaming>,
}

impl RenameRule {
    #[verifier::type_invariant]
    spec fn total(self) -> bool {
        forall|item: MapInput<'_>| self.rule.accepts(item)
    }

    /// `name` is an answer the rule may give for `item`.
    pub closed spec fn gives(&self, item: MapInput<'_>, name: Option<String>) -> bool {
        self.rule.gives(item, name)
    }

    /// Asks the rule about `item`.
    pub fn rename(&self, item: &MapInput<'_>) -> (name: Option<String>)
        ensures
            self.gives(*item, name),
    {
        proof {
            use_type_invariant(self);
        }
        self.rule.rename(item)
    }

    /// The rule that asks `f` about constants and names no other item.
    pub fn for_constants(f: impl core::ops::Fn(&Const) -> Option<String> + 'static) -> (rule: Self)
        requires
            forall|constant: &Const| call_requires(f, (constant,)),
        ensures
            forall|item: MapInput<'_>, name: Option<String>|
                rule.gives(item, name) <==> match item {
                    MapInput::Const(constant) => call_ensures(f, (constant,), name),
                    _ => name is None,
                },
    {
        RenameRule { rule: Box::new(ConstRename { f }) }
    }

    /// The rule that asks `f` about fields and names no other item.
    pub fn for_fields(f: impl core::ops::Fn(&Struct, &Field) -> Option<String> + 'static) -> (rule: Self)
        requires
            forall|s: &Struct, field: &Field| call_requires(f, (s, field)),
        ensures
            forall|item: MapInput<'_>, name: Option<String>|
                rule.gives(item, name) <==> match item {
                    MapInput::Field(s, field) => call_ensures(f, (s, field), name),
                    _ => name is None,
                },
    {
        RenameRule { rule: Box::new(FieldRename { f }) }
    }

    /// The rule that asks `f` about foreign functions and names no other item.
    pub fn for_functions(f: impl core::ops::Fn(&Fn) -> Option<String> + 'static) -> (rule: Self)
        requires
            forall|function: &Fn| call_requires(f, (function,)),
        ensures
            forall|item: MapInput<'_>, name: Option<String>|
                rule.gives(item, name) <==> match item {
                    MapInput::Fn(function) => call_ensures(f, (function,), name),
                    _ => name is None,
                },
    {
        RenameRule { rule: Box::new(FnRename { f }) }
    }

    /// The rule that asks `f` about type names and names no other item.
    pub fn for_types(f: impl core::ops::Fn(&str, TyKind) -> Option<String> + 'static) -> (rule: Self)
        requires
            forall|ty: &str, kind: TyKind| call_requires(f, (ty, kind)),
        ensures
            forall|item: MapInput<'_>, name: Option<String>|
                rule.gives(item, name) <==> match item {
                    MapInput::Type(ty, kind) => call_ensures(f, (ty, kind), name),
                    _ => name is None,
                },
    {
        RenameRule { rule: Box::new(TypeRename { f }) }
    }
}

/// A registered rule that may call a place volatile.
pub struct VolatileRule {
    rule: Box<dyn VolatilePredicate>,
}

impl VolatileRule {
    #[verifier::type_invariant]
    spec fn total(self) -> bool {
        forall|site: VolatileItemKind<'_>| self.rule.accepts(site)
    }

    /// `volatile` is an answer the rule may give for `site`.
    pub closed spec fn decides(&self, site: VolatileItemKind<'_>, volatile: bool) -> bool {
        self.rule.decides(site, volatile)
    }

    /// Asks the rule about `site`.
    pub fn test(&self, site: VolatileItemKind<'_>) -> (volatile: bool)
        ensures
            self.decides(site, volatile),
    {
        proof {
            use_type_invariant(self);
        }
        self.rule.test(site)
    }

    /// The rule that asks `f`.
    pub fn new(f: impl core::ops::Fn(VolatileItemKind<'_>) -> bool + 'static) -> (rule: Self)
        requires
            forall|site: VolatileItemKind<'_>| call_requires(f, (site,)),
        ensures
            forall|site: VolatileItemKind<'_>, volatile: bool|
                rule.decides(site, volatile) <==> call_ensures(f, (site,), volatile),
    {
        VolatileRule { rule: Box::new(VolatileCheck { f }) }
    }
}

/// A registered rule that may call a parameter an array.
pub struct ArrayRule {
    rule: Box<dyn ArrayPredicate>,
}

impl ArrayRule {
    #[verifier::type_invariant]
    spec fn total(self) -> bool {
        forall|function: &Fn, parameter: &Parameter| self.rule.accepts(function, parameter)
    }

    /// `array` is an answer the rule may give for `parameter` of `function`.
    pub closed spec fn decides(&self, function: &Fn, parameter: &Parameter, array: bool) -> bool {
        self.rule.decides(function, parameter, array)
    }

    /// Asks the rule about `parameter` of `function`.
    pub fn test(&self, function: &Fn, parameter: &Parameter) -> (array: bool)
        ensures
            self.decides(function, parameter, array),
    {
        proof {
            use_type_invariant(self);
        }
        self.rule.test(function, parameter)
    }

    /// The rule that asks `f`.
    pub fn new(f: impl core::ops::Fn(&Fn, &Parameter) -> bool + 'static) -> (rule: Self)
        requires
            forall|function: &Fn, parameter: &Parameter| call_requires(f, (function, parameter)),
        ensures
            forall|function: &Fn, parameter: &Parameter, array: bool|
                rule.decides(function, parameter, array) <==> call_ensures(
                    f,
                    (function, parameter),
                    array,
                ),
    {
        ArrayRule { rule: Box::new(ArrayCheck { f }) }
    }
}

/// A registered rule that may leave one kind of test out for a name.
pub struct NameRule {
    rule: Box<dyn NamePredicate>,
}

impl NameRule {
    #[verifier::type_invariant]
    spec fn total(self) -> bool {
        forall|ident: &str| self.rule.accepts(ident)
    }

    /// `skip` is an answer the rule may give for `ident`.
    pub closed spec fn decides(&self, ident: &str, skip: bool) -> bool {
        self.rule.decides(ident, skip)
    }

    /// Asks the rule about `ident`.
    pub fn test(&self, ident: &str) -> (skip: bool)
        ensures
            self.decides(ident, skip),
    {
        proof {
            use_type_invariant(self);
        }
        self.rule.test(ident)
    }

    /// The rule that asks `f`.
    pub fn new(f: impl core::ops::Fn(&str) -> bool + 'static) -> (rule: Self)
        requires
            forall|ident: &str| call_requires(f, (ident,)),
        ensures
            forall|ident: &str, skip: bool|
                rule.decides(ident, skip) <==> call_ensures(f, (ident,), skip),
    {
        NameRule { rule: Box::new(NameCheck { f }) }
    }
}

} // verus!
