//! The taking out of the items that the skip rules leave out.

use crate::ast::{Const, Static, Struct, Type};
use crate::ffi_items::{Declared, FfiItems};
use crate::generator::{GeneratorView, TestGenerator};
use crate::rules::MapInput;
use crate::text::views;
use vstd::prelude::*;
use vstd::string::StringExecFns;

verus! {

/// The items of `items` whose flag in `out` is not set, in order.
pub open spec fn kept<T>(items: Seq<T>, out: Seq<bool>) -> Seq<T>
    decreases items.len(),
{
    if items.len() == 0 {
        items
    } else if out.len() == items.len() && out.last() {
        kept(items.drop_last(), out.drop_last())
    } else {
        kept(items.drop_last(), out.drop_last()).push(items.last())
    }
}

/// The items of `items` whose flag in `out` is set, in order.
pub open spec fn left_out<T>(items: Seq<T>, out: Seq<bool>) -> Seq<T>
    decreases items.len(),
{
    if items.len() == 0 {
        items
    } else if out.len() == items.len() && out.last() {
        left_out(items.drop_last(), out.drop_last()).push(items.last())
    } else {
        left_out(items.drop_last(), out.drop_last())
    }
}

/// Parts `items` by the flags in `out`: first those whose flag is not set,
/// then those whose flag is set.
fn partition<T>(items: Vec<T>, out: &Vec<bool>) -> (parts: (Vec<T>, Vec<T>))
    requires
        out@.len() == items@.len(),
    ensures
        parts.0@ == kept(items@, out@),
        parts.1@ == left_out(items@, out@),
{
    let ghost all = items@;
    let mut stay: Vec<T> = Vec::new();
    let mut leave: Vec<T> = Vec::new();
    let mut n: usize = 0;
    assert(all.take(0) =~= Seq::empty());
    for item in it: items
        invariant
            it.seq() == all,
            out@.len() == all.len(),
            n == it.index(),
            stay@ == kept(all.take(n as int), out@.take(n as int)),
            leave@ == left_out(all.take(n as int), out@.take(n as int)),
    {
        assert(all.take(n + 1).drop_last() =~= all.take(n as int));
        assert(out@.take(n + 1).drop_last() =~= out@.take(n as int));
        assert(n < out.len());
        if out[n] {
            leave.push(item);
        } else {
            stay.push(item);
        }
        n = n + 1;
    }
    assert(all.take(all.len() as int) =~= all);
    assert(out@.take(all.len() as int) =~= out@);
    (stay, leave)
}

/// A declaration that the skip rules are asked about as a whole, and
/// that is named where it is left out.
pub trait Skippable: Sized {
    /// What the skip rules are asked about for this declaration.
    spec fn spec_input(&self) -> MapInput<'_>;

    /// The name the declaration was declared with.
    spec fn spec_name(&self) -> Seq<char>;

    /// What the skip rules are asked about for this declaration.
    fn input(&self) -> (input: MapInput<'_>)
        ensures
            input == self.spec_input(),
    ;

    /// The name the declaration was declared with.
    fn name(&self) -> (name: &str)
        ensures
            name@ == self.spec_name(),
    ;
}

impl Skippable for Type {
    open spec fn spec_input(&self) -> MapInput<'_> {
        MapInput::Alias(self)
    }

    open spec fn spec_name(&self) -> Seq<char> {
        self.ident@
    }

    fn input(&self) -> (input: MapInput<'_>) {
        MapInput::Alias(self)
    }

    fn name(&self) -> (name: &str) {
        self.ident.as_str()
    }
}

impl Skippable for Const {
    open spec fn spec_input(&self) -> MapInput<'_> {
        MapInput::Const(self)
    }

    open spec fn spec_name(&self) -> Seq<char> {
        self.ident@
    }

    fn input(&self) -> (input: MapInput<'_>) {
        MapInput::Const(self)
    }

    fn name(&self) -> (name: &str) {
        self.ident.as_str()
    }
}

impl Skippable for Struct {
    open spec fn spec_input(&self) -> MapInput<'_> {
        MapInput::Struct(self)
    }

    open spec fn spec_name(&self) -> Seq<char> {
        self.ident@
    }

    fn input(&self) -> (input: MapInput<'_>) {
        MapInput::Struct(self)
    }

    fn name(&self) -> (name: &str) {
        self.ident.as_str()
    }
}

impl Skippable for crate::ast::Fn {
    open spec fn spec_input(&self) -> MapInput<'_> {
        MapInput::Fn(self)
    }

    open spec fn spec_name(&self) -> Seq<char> {
        self.ident@
    }

    fn input(&self) -> (input: MapInput<'_>) {
        MapInput::Fn(self)
    }

    fn name(&self) -> (name: &str) {
        self.ident.as_str()
    }
}

impl Skippable for Static {
    open spec fn spec_input(&self) -> MapInput<'_> {
        MapInput::Static(self)
    }

    open spec fn spec_name(&self) -> Seq<char> {
        self.ident@
    }

    fn input(&self) -> (input: MapInput<'_>) {
        MapInput::Static(self)
    }

    fn name(&self) -> (name: &str) {
        self.ident.as_str()
    }
}

impl GeneratorView {
    /// `out` may be what the skip rules say of each of `items`.
    pub open spec fn flags<T: Skippable>(self, items: Seq<T>, out: Seq<bool>) -> bool {
        &&& out.len() == items.len()
        &&& forall|k: int|
            0 <= k < items.len() ==> self.skip_outcome(items[k].spec_input(), #[trigger] out[k])
    }

    /// `after` and `skipped` may be what filtering makes of `before`:
    /// `after` keeps the items that the skip rules keep and `skipped`
    /// holds those that they leave out, both in the order of `before`.
    pub open spec fn parts<T: Skippable>(self, before: Seq<T>, after: Seq<T>, skipped: Seq<T>) -> bool {
        exists|out: Seq<bool>|
            #![trigger self.flags(before, out)]
            {
                &&& self.flags(before, out)
                &&& after == kept(before, out)
                &&& skipped == left_out(before, out)
            }
    }

    /// `after` and `skipped` may be what filtering makes of `before`: of
    /// every kind of item but unions, `after` keeps those that the skip
    /// rules keep and `skipped` holds those that they leave out, both in
    /// the order of `before`. Unions all stay.
    pub open spec fn filters(self, before: Declared, after: Declared, skipped: Declared) -> bool {
        &&& after.unions == before.unions
        &&& skipped.unions.len() == 0
        &&& self.parts(before.aliases, after.aliases, skipped.aliases)
        &&& self.parts(before.constants, after.constants, skipped.constants)
        &&& self.parts(before.structs, after.structs, skipped.structs)
        &&& self.parts(before.foreign_functions, after.foreign_functions, skipped.foreign_functions)
        &&& self.parts(before.foreign_statics, after.foreign_statics, skipped.foreign_statics)
    }
}

impl TestGenerator {
    /// What the skip rules say of each of `items`.
    fn skip_flags<T: Skippable>(&self, items: &Vec<T>) -> (out: Vec<bool>)
        ensures
            self@.flags(items@, out@),
    {
        let mut out: Vec<bool> = Vec::new();
        let mut k: usize = 0;
        while k < items.len()
            invariant
                k <= items.len(),
                self@.flags(items@.take(k as int), out@),
            decreases items.len() - k,
        {
            let skip = self.should_skip(&items[k].input());
            out.push(skip);
            k = k + 1;
        }
        assert(items@.take(k as int) =~= items@);
        out
    }

    /// Takes out of `items` those that a skip rule leaves out, and
    /// returns them.
    fn part<T: Skippable>(&self, items: &mut Vec<T>) -> (skipped: Vec<T>)
        ensures
            self@.parts(old(items)@, final(items)@, skipped@),
    {
        let out = self.skip_flags(items);
        let mut all: Vec<T> = Vec::new();
        core::mem::swap(&mut all, items);
        let (stay, leave) = partition(all, &out);
        *items = stay;
        assert(self@.flags(old(items)@, out@));
        leave
    }

    /// Takes out of `ffi_items` every alias, constant, struct, foreign
    /// function and foreign static that a skip rule leaves out, and
    /// returns what was taken out. Fields are not looked at, and unions
    /// are not filtered.
    pub fn filter_ffi_items(&self, ffi_items: &mut FfiItems) -> (skipped: FfiItems)
        ensures
            self@.filters(old(ffi_items)@, final(ffi_items)@, skipped@),
    {
        let mut skipped = FfiItems::new();
        skipped.aliases = self.part(&mut ffi_items.aliases);
        skipped.constants = self.part(&mut ffi_items.constants);
        skipped.structs = self.part(&mut ffi_items.structs);
        skipped.foreign_functions = self.part(&mut ffi_items.foreign_functions);
        skipped.foreign_statics = self.part(&mut ffi_items.foreign_statics);
        skipped
    }
}

/// The line that reports a skipped item: its kind and, in quotes, its name.
pub open spec fn skip_line(label: Seq<char>, ident: Seq<char>) -> Seq<char> {
    "Skipping "@ + label + " \""@ + ident + "\""@
}

/// The lines that report `items` as skipped items of the kind `label`.
pub open spec fn report<T: Skippable>(label: Seq<char>, items: Seq<T>) -> Seq<Seq<char>> {
    Seq::new(items.len(), |i: int| skip_line(label, items[i].spec_name()))
}

/// The lines that report what was skipped: aliases first, then constants,
/// structs, functions and statics, each kind in the order of declaration.
pub open spec fn skip_lines(skipped: Declared) -> Seq<Seq<char>> {
    report("alias"@, skipped.aliases) + report("const"@, skipped.constants) + report(
        "struct"@,
        skipped.structs,
    ) + report("fn"@, skipped.foreign_functions) + report("static"@, skipped.foreign_statics)
}

/// The line that reports a skipped item.
fn skip_message(label: &str, ident: &str) -> (line: String)
    ensures
        line@ == skip_line(label@, ident@),
{
    let mut line = "Skipping ".to_string();
    line.append(label);
    line.append(" \"");
    line.append(ident);
    line.append("\"");
    line
}

/// Adds the lines that report `items` as skipped items of the kind `label`.
fn push_report<T: Skippable>(lines: &mut Vec<String>, label: &str, items: &Vec<T>)
    ensures
        views(final(lines)@) == views(old(lines)@) + report(label@, items@),
{
    let ghost before = views(lines@);
    let mut k: usize = 0;
    assert(views(lines@) =~= before + report(label@, items@.take(0)));
    while k < items.len()
        invariant
            k <= items.len(),
            views(lines@) == before + report(label@, items@.take(k as int)),
        decreases items.len() - k,
    {
        let ghost so_far = views(lines@);
        lines.push(skip_message(label, items[k].name()));
        assert(views(lines@) =~= so_far.push(skip_line(label@, items@[k as int].spec_name())));
        assert(report(label@, items@.take(k + 1)) =~= report(label@, items@.take(k as int)).push(
            skip_line(label@, items@[k as int].spec_name()),
        ));
        k = k + 1;
    }
    assert(items@.take(k as int) =~= items@);
}

impl TestGenerator {
    /// The lines that report the items in `skipped`, where the generator
    /// is set to report them; no line where it is not.
    pub fn skip_report(&self, skipped: &FfiItems) -> (lines: Vec<String>)
        ensures
            views(lines@) == (if self@.verbose_skip {
                skip_lines(skipped@)
            } else {
                Seq::empty()
            }),
    {
        let mut lines: Vec<String> = Vec::new();
        assert(views(lines@) =~= Seq::empty());
        if self.verbose_skip {
            push_report(&mut lines, "alias", &skipped.aliases);
            push_report(&mut lines, "const", &skipped.constants);
            push_report(&mut lines, "struct", &skipped.structs);
            push_report(&mut lines, "fn", &skipped.foreign_functions);
            push_report(&mut lines, "static", &skipped.foreign_statics);
            assert(views(lines@) =~= skip_lines(skipped@));
        }
        lines
    }
}

/// What is kept was there before, and its flag was not set.
pub proof fn lemma_kept_was_not_flagged<T>(items: Seq<T>, out: Seq<bool>, j: int)
    requires
        out.len() == items.len(),
        0 <= j < kept(items, out).len(),
    ensures
        exists|i: int| 0 <= i < items.len() && !out[i] && #[trigger] items[i] == kept(items, out)[j],
    decreases items.len(),
{
    if items.len() > 0 {
        let front = kept(items.drop_last(), out.drop_last());
        if j < front.len() {
            lemma_kept_was_not_flagged(items.drop_last(), out.drop_last(), j);
            let i = choose|i: int|
                0 <= i < items.drop_last().len() && !out.drop_last()[i]
                    && #[trigger] items.drop_last()[i] == front[j];
            assert(items[i] == kept(items, out)[j]);
        } else {
            assert(items[items.len() - 1] == kept(items, out)[j]);
        }
    }
}

/// A constant that some skip rule can only leave out is not among the
/// constants after filtering.
pub proof fn lemma_skipped_constant_is_absent(
    generator: GeneratorView,
    before: Declared,
    after: Declared,
    skipped: Declared,
    constant: Const,
    rule: int,
)
    requires
        generator.filters(before, after, skipped),
        0 <= rule < generator.skips.len(),
        !generator.skips[rule].decides(MapInput::Const(&constant), false),
    ensures
        !after.constants.contains(constant),
{
    if after.constants.contains(constant) {
        let out = choose|out: Seq<bool>|
            #![trigger generator.flags(before.constants, out)]
            {
                &&& generator.flags(before.constants, out)
                &&& after.constants == kept(before.constants, out)
                &&& skipped.constants == left_out(before.constants, out)
            };
        let j = choose|j: int| 0 <= j < after.constants.len() && after.constants[j] == constant;
        lemma_kept_was_not_flagged(before.constants, out, j);
        let i = choose|i: int|
            0 <= i < before.constants.len() && !out[i] && #[trigger] before.constants[i] == kept(
                before.constants,
                out,
            )[j];
        assert(generator.skip_outcome(before.constants[i].spec_input(), out[i]));
        assert(generator.skips[rule].decides(MapInput::Const(&constant), false));
    }
}

} // verus!
