//! What the registered rules make of an item: its name in C, and whether
//! it is left out, volatile, or an array.
//!
//! Rename rules are asked in the order of registration, and the first
//! that has an answer decides. Of the rules that say yes or no, one yes
//! is enough. Where no rule decides, the declaration itself does.

use crate::ast::Parameter;
use crate::generator::{GenerationError, GeneratorView, TestGenerator};
use crate::rules::{MapInput, TyKind};
use crate::VolatileItemKind;
use vstd::prelude::*;
use vstd::string::StringExecFns;

verus! {

/// The name of an item where no rule gives it one: its identifier, and for
/// the name of a struct or union the keyword and the name.
pub open spec fn default_name(item: MapInput<'_>) -> Seq<char> {
    match item {
        MapInput::Const(constant) => constant.ident@,
        MapInput::Fn(function) => function.ident@,
        MapInput::Static(item) => item.ident@,
        MapInput::Struct(s) => s.ident@,
        MapInput::Alias(alias) => alias.ident@,
        MapInput::Field(_, field) => field.ident@,
        MapInput::FieldType(_, field) => field.ident@,
        MapInput::Type(ty, TyKind::Struct) => "struct "@ + ty@,
        MapInput::Type(ty, TyKind::Union) => "union "@ + ty@,
        MapInput::Type(ty, TyKind::Other) => ty@,
    }
}

impl GeneratorView {
    /// Every one of the first `n` rename rules may leave `item` unnamed.
    pub open spec fn unnamed_by(self, item: MapInput<'_>, n: int) -> bool {
        forall|j: int| 0 <= j < n ==> (#[trigger] self.mapped_names[j]).gives(item, None)
    }

    /// `name` may be the C name of `item`: either the name that a rename
    /// rule gives, where every rule registered before it leaves the item
    /// unnamed, or the default name, where every rule does.
    pub open spec fn resolves(self, item: MapInput<'_>, name: String) -> bool {
        ||| exists|i: int|
            0 <= i < self.mapped_names.len() && (#[trigger] self.mapped_names[i]).gives(
                item,
                Some(name),
            ) && self.unnamed_by(item, i)
        ||| self.unnamed_by(item, self.mapped_names.len() as int) && name@ == default_name(item)
    }

    /// Every one of the first `n` skip rules may leave `item` in.
    pub open spec fn kept_by(self, item: MapInput<'_>, n: int) -> bool {
        forall|j: int| 0 <= j < n ==> (#[trigger] self.skips[j]).decides(item, false)
    }

    /// `skip` may be what the skip rules say of `item`: it is left out
    /// where one rule says so, and kept where every rule keeps it.
    pub open spec fn skip_outcome(self, item: MapInput<'_>, skip: bool) -> bool {
        if skip {
            exists|i: int|
                0 <= i < self.skips.len() && (#[trigger] self.skips[i]).decides(item, true)
                    && self.kept_by(item, i)
        } else {
            self.kept_by(item, self.skips.len() as int)
        }
    }

    /// Every one of the first `n` volatile rules may call `site` plain.
    pub open spec fn plain_by(self, site: VolatileItemKind<'_>, n: int) -> bool {
        forall|j: int| 0 <= j < n ==> (#[trigger] self.volatile_items[j]).decides(site, false)
    }

    /// `volatile` may be what the volatile rules say of `site`: it is
    /// volatile where one rule says so.
    pub open spec fn volatile_outcome(self, site: VolatileItemKind<'_>, volatile: bool) -> bool {
        if volatile {
            exists|i: int|
                0 <= i < self.volatile_items.len() && (#[trigger] self.volatile_items[i]).decides(
                    site,
                    true,
                ) && self.plain_by(site, i)
        } else {
            self.plain_by(site, self.volatile_items.len() as int)
        }
    }

    /// Every one of the first `n` array rules may call the parameter a
    /// plain pointer.
    pub open spec fn scalar_by(self, function: &crate::ast::Fn, parameter: &Parameter, n: int) -> bool {
        forall|j: int|
            0 <= j < n ==> (#[trigger] self.array_args[j]).decides(function, parameter, false)
    }

    /// `array` may be what the array rules say of `parameter` of
    /// `function`: it is an array where one rule says so.
    pub open spec fn array_outcome(
        self,
        function: &crate::ast::Fn,
        parameter: &Parameter,
        array: bool,
    ) -> bool {
        if array {
            exists|i: int|
                0 <= i < self.array_args.len() && (#[trigger] self.array_args[i]).decides(
                    function,
                    parameter,
                    true,
                ) && self.scalar_by(function, parameter, i)
        } else {
            self.scalar_by(function, parameter, self.array_args.len() as int)
        }
    }
}

impl TestGenerator {
    /// Maps a Rust identifier or type to its C counterpart, or defaults
    /// to the name it was declared with. No item is without a name.
    pub fn map(&self, item: MapInput<'_>) -> (name: Result<String, GenerationError>)
        ensures
            name matches Ok(name) && self@.resolves(item, name),
    {
        Ok(self.resolve(item))
    }

    /// The C name of `item`: the name that the first rename rule with an
    /// answer gives, or else the default.
    pub fn resolve(&self, item: MapInput<'_>) -> (name: String)
        ensures
            self@.resolves(item, name),
    {
        let mut i: usize = 0;
        while i < self.mapped_names.len()
            invariant
                i <= self.mapped_names.len(),
                self@.unnamed_by(item, i as int),
            decreases self.mapped_names.len() - i,
        {
            match self.mapped_names[i].rename(&item) {
                Some(name) => {
                    assert(self@.mapped_names[i as int].gives(item, Some(name)));
                    return name;
                },
                None => {},
            }
            i = i + 1;
        }
        match item {
            MapInput::Const(constant) => constant.ident.clone(),
            MapInput::Fn(function) => function.ident.clone(),
            MapInput::Static(item) => item.ident.clone(),
            MapInput::Struct(s) => s.ident.clone(),
            MapInput::Alias(alias) => alias.ident.clone(),
            MapInput::Field(_, field) => field.ident.clone(),
            MapInput::FieldType(_, field) => field.ident.clone(),
            MapInput::Type(ty, TyKind::Struct) => {
                let mut name = "struct ".to_string();
                name.append(ty);
                name
            },
            MapInput::Type(ty, TyKind::Union) => {
                let mut name = "union ".to_string();
                name.append(ty);
                name
            },
            MapInput::Type(ty, TyKind::Other) => ty.to_string(),
        }
    }

    /// Whether a skip rule leaves `item` out. The rules are asked in the
    /// order of registration, up to the first that says so.
    pub fn should_skip(&self, item: &MapInput<'_>) -> (skip: bool)
        ensures
            self@.skip_outcome(*item, skip),
    {
        let mut i: usize = 0;
        while i < self.skips.len()
            invariant
                i <= self.skips.len(),
                self@.kept_by(*item, i as int),
            decreases self.skips.len() - i,
        {
            if self.skips[i].test(item) {
                assert(self@.skips[i as int].decides(*item, true));
                return true;
            }
            i = i + 1;
        }
        false
    }

    /// Whether a rule calls `site` volatile.
    pub fn is_volatile(&self, site: VolatileItemKind<'_>) -> (volatile: bool)
        ensures
            self@.volatile_outcome(site, volatile),
    {
        let mut i: usize = 0;
        while i < self.volatile_items.len()
            invariant
                i <= self.volatile_items.len(),
                self@.plain_by(site, i as int),
            decreases self.volatile_items.len() - i,
        {
            if self.volatile_items[i].test(site) {
                assert(self@.volatile_items[i as int].decides(site, true));
                return true;
            }
            i = i + 1;
        }
        false
    }

    /// Whether a rule calls `parameter` of `function` an array.
    pub fn is_array_arg(&self, function: &crate::ast::Fn, parameter: &Parameter) -> (array: bool)
        ensures
            self@.array_outcome(function, parameter, array),
    {
        let mut i: usize = 0;
        while i < self.array_args.len()
            invariant
                i <= self.array_args.len(),
                self@.scalar_by(function, parameter, i as int),
            decreases self.array_args.len() - i,
        {
            if self.array_args[i].test(function, parameter) {
                assert(self@.array_args[i as int].decides(function, parameter, true));
                return true;
            }
            i = i + 1;
        }
        false
    }
}

/// The first rename rule with an answer wins: where the rule at `first` can
/// only answer `name` for `item`, and every rule before it can only leave
/// the item unnamed, the item resolves to `name`, whatever the rules
/// registered later would answer.
pub proof fn lemma_first_rename_wins(
    generator: GeneratorView,
    item: MapInput<'_>,
    first: int,
    name: Seq<char>,
    resolved: String,
)
    requires
        0 <= first < generator.mapped_names.len(),
        forall|answer: Option<String>| #[trigger]
            generator.mapped_names[first].gives(item, answer) ==> answer is Some
                && answer->0@ == name,
        forall|j: int, answer: Option<String>|
            0 <= j < first && #[trigger] generator.mapped_names[j].gives(item, answer)
                ==> answer is None,
        generator.resolves(item, resolved),
    ensures
        resolved@ == name,
{
    if exists|i: int|
        0 <= i < generator.mapped_names.len() && (#[trigger] generator.mapped_names[i]).gives(
            item,
            Some(resolved),
        ) && generator.unnamed_by(item, i) {
        let i = choose|i: int|
            0 <= i < generator.mapped_names.len() && (#[trigger] generator.mapped_names[i]).gives(
                item,
                Some(resolved),
            ) && generator.unnamed_by(item, i);
        if i < first {
            assert(generator.mapped_names[i].gives(item, Some(resolved)));
        } else if i > first {
            assert(generator.mapped_names[first].gives(item, None));
        }
    } else {
        assert(generator.mapped_names[first].gives(item, None));
    }
}

/// One skip rule is enough: where some registered rule can only say that
/// `item` is left out, the item is left out, whatever the other rules say.
pub proof fn lemma_any_skip_rule_skips(
    generator: GeneratorView,
    item: MapInput<'_>,
    rule: int,
    skip: bool,
)
    requires
        0 <= rule < generator.skips.len(),
        !generator.skips[rule].decides(item, false),
        generator.skip_outcome(item, skip),
    ensures
        skip,
{
    if !skip {
        assert(generator.skips[rule].decides(item, false));
    }
}

/// No skip rule, no skipping: an item that every registered rule can only
/// keep is kept.
pub proof fn lemma_no_skip_rule_keeps(generator: GeneratorView, item: MapInput<'_>, skip: bool)
    requires
        forall|i: int|
            0 <= i < generator.skips.len() ==> !(#[trigger] generator.skips[i]).decides(item, true),
        generator.skip_outcome(item, skip),
    ensures
        !skip,
{
}

} // verus!
