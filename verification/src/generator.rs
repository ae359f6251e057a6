//! The builder that holds the configuration of a test suite: what the C
//! side is compiled with, and the rules that are registered.

use crate::ast::{Const, Field, Parameter, Static, Struct, Type};
use crate::rules::{ArrayRule, MapInput, NameRule, RenameRule, SkipRule, TyKind, VolatileRule};
use crate::text::views;
use crate::{Language, VolatileItemKind};
use vstd::prelude::*;
use vstd::string::StringExecFns;

verus! {

/// Why a test suite could not be generated.
#[derive(Debug)]
pub enum GenerationError {
    /// The crate at the path could not be expanded.
    MacroExpansion(String, String),
    /// The expanded crate, held first, is not valid Rust.
    RustSyntax(String, String),
    /// The side of the tests that is named first could not be rendered.
    TemplateRender(String, String),
    /// A file could not be created or written.
    OsError(String),
    /// An identifier or type has no name in C.
    ItemMap,
}

impl GenerationError {
    /// The error in words.
    pub open spec fn description(self) -> Seq<char> {
        match self {
            GenerationError::MacroExpansion(path, reason) => "unable to expand crate "@ + path@
                + ": "@ + reason@,
            GenerationError::RustSyntax(source, reason) => "unable to parse expanded crate "@
                + source@ + ": "@ + reason@,
            GenerationError::TemplateRender(side, reason) => "unable to render "@ + side@
                + " template: "@ + reason@,
            GenerationError::OsError(reason) => "unable to create or write template file: "@
                + reason@,
            GenerationError::ItemMap => "unable to map Rust identifier or type"@,
        }
    }

    /// The error in words.
    pub fn message(&self) -> (text: String)
        ensures
            text@ == self.description(),
    {
        match self {
            GenerationError::MacroExpansion(path, reason) => {
                let mut text = "unable to expand crate ".to_string();
                text.append(path.as_str());
                text.append(": ");
                text.append(reason.as_str());
                text
            },
            GenerationError::RustSyntax(source, reason) => {
                let mut text = "unable to parse expanded crate ".to_string();
                text.append(source.as_str());
                text.append(": ");
                text.append(reason.as_str());
                text
            },
            GenerationError::TemplateRender(side, reason) => {
                let mut text = "unable to render ".to_string();
                text.append(side.as_str());
                text.append(" template: ");
                text.append(reason.as_str());
                text
            },
            GenerationError::OsError(reason) => {
                let mut text = "unable to create or write template file: ".to_string();
                text.append(reason.as_str());
                text
            },
            GenerationError::ItemMap => "unable to map Rust identifier or type".to_string(),
        }
    }
}

/// A name with the value it is given, if it is given one.
pub type Define = (String, Option<String>);

/// What a generator is configured with.
pub struct GeneratorView {
    pub headers: Seq<Seq<char>>,
    pub target: Option<Seq<char>>,
    pub includes: Seq<Seq<char>>,
    pub out_dir: Option<Seq<char>>,
    pub language: Language,
    pub flags: Seq<Seq<char>>,
    pub defines: Seq<(Seq<char>, Option<Seq<char>>)>,
    pub cfg: Seq<(Seq<char>, Option<Seq<char>>)>,
    pub mapped_names: Seq<RenameRule>,
    pub skips: Seq<SkipRule>,
    pub verbose_skip: bool,
    pub volatile_items: Seq<VolatileRule>,
    pub array_args: Seq<ArrayRule>,
    pub skip_roundtrip: Option<NameRule>,
    pub skip_signededness: Option<NameRule>,
    pub skip_fn_ptr_check: Option<NameRule>,
    pub roundtrip_arrays: bool,
}

/// A builder used to generate a test suite.
pub struct TestGenerator {
    pub headers: Vec<String>,
    pub target: Option<String>,
    pub includes: Vec<String>,
    pub out_dir: Option<String>,
    /// The language chosen for testing bindings.
    pub language: Language,
    pub flags: Vec<String>,
    pub defines: Vec<Define>,
    pub cfg: Vec<Define>,
    pub mapped_names: Vec<RenameRule>,
    pub skips: Vec<SkipRule>,
    pub verbose_skip: bool,
    pub volatile_items: Vec<VolatileRule>,
    pub array_args: Vec<ArrayRule>,
    pub skip_roundtrip: Option<NameRule>,
    pub skip_signededness: Option<NameRule>,
    pub skip_fn_ptr_check: Option<NameRule>,
    pub roundtrip_arrays: bool,
}

/// The characters of a string that may be absent.
pub open spec fn optional_text(text: Option<String>) -> Option<Seq<char>> {
    match text {
        Some(text) => Some(text@),
        None => None,
    }
}

/// The definitions as characters.
pub open spec fn defined(defines: Seq<Define>) -> Seq<(Seq<char>, Option<Seq<char>>)> {
    Seq::new(defines.len(), |i: int| (defines[i].0@, optional_text(defines[i].1)))
}

impl View for TestGenerator {
    type V = GeneratorView;

    open spec fn view(&self) -> GeneratorView {
        GeneratorView {
            headers: views(self.headers@),
            target: optional_text(self.target),
            includes: views(self.includes@),
            out_dir: optional_text(self.out_dir),
            language: self.language,
            flags: views(self.flags@),
            defines: defined(self.defines@),
            cfg: defined(self.cfg@),
            mapped_names: self.mapped_names@,
            skips: self.skips@,
            verbose_skip: self.verbose_skip,
            volatile_items: self.volatile_items@,
            array_args: self.array_args@,
            skip_roundtrip: self.skip_roundtrip,
            skip_signededness: self.skip_signededness,
            skip_fn_ptr_check: self.skip_fn_ptr_check,
            roundtrip_arrays: self.roundtrip_arrays,
        }
    }
}

impl GeneratorView {
    /// The configuration of a new generator: nothing is set, the language
    /// is C, and structs and unions with an array among their fields get
    /// no test of their layout.
    pub open spec fn blank() -> GeneratorView {
        GeneratorView {
            headers: Seq::empty(),
            target: None,
            includes: Seq::empty(),
            out_dir: None,
            language: Language::C,
            flags: Seq::empty(),
            defines: Seq::empty(),
            cfg: Seq::empty(),
            mapped_names: Seq::empty(),
            skips: Seq::empty(),
            verbose_skip: false,
            volatile_items: Seq::empty(),
            array_args: Seq::empty(),
            skip_roundtrip: None,
            skip_signededness: None,
            skip_fn_ptr_check: None,
            roundtrip_arrays: false,
        }
    }

    /// The configuration with one more skip rule, registered last.
    pub open spec fn with_skip(self, rule: SkipRule) -> GeneratorView {
        GeneratorView { skips: self.skips.push(rule), ..self }
    }

    /// The configuration with one more rename rule, registered last.
    pub open spec fn with_rename(self, rule: RenameRule) -> GeneratorView {
        GeneratorView { mapped_names: self.mapped_names.push(rule), ..self }
    }
}

/// A `--cfg` option as the compiler takes it: the name alone, or the name
/// and its value in quotes.
pub open spec fn cfg_option(option: (Seq<char>, Option<Seq<char>>)) -> Seq<char> {
    match option.1 {
        None => option.0,
        Some(value) => option.0 + "=\""@ + value + "\""@,
    }
}

/// The arguments that hand `options` to the compiler: for each, in
/// order, `--cfg` and the option.
pub open spec fn cfg_arguments(options: Seq<(Seq<char>, Option<Seq<char>>)>) -> Seq<Seq<char>>
    decreases options.len(),
{
    if options.len() == 0 {
        Seq::empty()
    } else {
        cfg_arguments(options.drop_last()).push("--cfg"@).push(cfg_option(options.last()))
    }
}

impl TestGenerator {
    /// Creates a new blank test generator.
    pub fn new() -> (generator: Self)
        ensures
            generator@ == GeneratorView::blank(),
    {
        let generator = TestGenerator {
            headers: Vec::new(),
            target: None,
            includes: Vec::new(),
            out_dir: None,
            language: Language::C,
            flags: Vec::new(),
            defines: Vec::new(),
            cfg: Vec::new(),
            mapped_names: Vec::new(),
            skips: Vec::new(),
            verbose_skip: false,
            volatile_items: Vec::new(),
            array_args: Vec::new(),
            skip_roundtrip: None,
            skip_signededness: None,
            skip_fn_ptr_check: None,
            roundtrip_arrays: false,
        };
        assert(generator@.headers =~= Seq::empty());
        assert(generator@.includes =~= Seq::empty());
        assert(generator@.flags =~= Seq::empty());
        assert(generator@.defines =~= Seq::empty());
        assert(generator@.cfg =~= Seq::empty());
        generator
    }

    /// Add a header to be included as part of the generated C file.
    pub fn header(&mut self, header: &str) -> (ret: &mut Self)
        ensures
            ret@ == (GeneratorView { headers: old(self)@.headers.push(header@), ..old(self)@ }),
            *final(self) == *final(ret),
    {
        self.headers.push(header.to_string());
        assert(views(self.headers@) =~= views(old(self).headers@).push(header@));
        self
    }

    /// Configures the target to compile C code for.
    pub fn target(&mut self, target: &str) -> (ret: &mut Self)
        ensures
            ret@ == (GeneratorView { target: Some(target@), ..old(self)@ }),
            *final(self) == *final(ret),
    {
        self.target = Some(target.to_string());
        self
    }

    /// Add a path to the C compiler header lookup path.
    pub fn include_dir(&mut self, p: &str) -> (ret: &mut Self)
        ensures
            ret@ == (GeneratorView { includes: old(self)@.includes.push(p@), ..old(self)@ }),
            *final(self) == *final(ret),
    {
        self.includes.push(p.to_string());
        assert(views(self.includes@) =~= views(old(self).includes@).push(p@));
        self
    }

    /// Configures the output directory of the generated Rust and C code.
    pub fn out_dir(&mut self, p: &str) -> (ret: &mut Self)
        ensures
            ret@ == (GeneratorView { out_dir: Some(p@), ..old(self)@ }),
            *final(self) == *final(ret),
    {
        self.out_dir = Some(p.to_string());
        self
    }

    /// Sets whether the names of skipped items are reported.
    pub fn verbose_skip(&mut self, skip: bool) -> (ret: &mut Self)
        ensures
            ret@ == (GeneratorView { verbose_skip: skip, ..old(self)@ }),
            *final(self) == *final(ret),
    {
        self.verbose_skip = skip;
        self
    }

    /// Registers a rule that says which places are volatile.
    ///
    /// The closure is given a place that could be volatile and says whether
    /// it is, so that the generated C code holds the qualifier too.
    pub fn volatile_item(&mut self, f: impl Fn(VolatileItemKind<'_>) -> bool + 'static) -> (ret:
        &mut Self)
        requires
            forall|site: VolatileItemKind<'_>| call_requires(f, (site,)),
        ensures
            ret@ == (GeneratorView {
                volatile_items: old(self)@.volatile_items.push(ret@.volatile_items.last()),
                ..old(self)@
            }),
            forall|site: VolatileItemKind<'_>, volatile: bool|
                ret@.volatile_items.last().decides(site, volatile) <==> call_ensures(
                    f,
                    (site,),
                    volatile,
                ),
            *final(self) == *final(ret),
    {
        self.volatile_items.push(VolatileRule::new(f));
        self
    }

    /// Registers a rule that says which parameters are arrays.
    ///
    /// A pointer parameter may point to one value or to the start of an
    /// array; the closure says which, for a function and one of its
    /// parameters.
    pub fn array_arg(
        &mut self,
        f: impl Fn(&crate::ast::Fn, &Parameter) -> bool + 'static,
    ) -> (ret: &mut Self)
        requires
            forall|function: &crate::ast::Fn, parameter: &Parameter|
                call_requires(f, (function, parameter)),
        ensures
            ret@ == (GeneratorView {
                array_args: old(self)@.array_args.push(ret@.array_args.last()),
                ..old(self)@
            }),
            forall|function: &crate::ast::Fn, parameter: &Parameter, array: bool|
                ret@.array_args.last().decides(function, parameter, array) <==> call_ensures(
                    f,
                    (function, parameter),
                    array,
                ),
            *final(self) == *final(ret),
    {
        self.array_args.push(ArrayRule::new(f));
        self
    }

    /// Configures whether the tests for a struct are emitted.
    pub fn skip_struct(&mut self, f: impl Fn(&Struct) -> bool + 'static) -> (ret: &mut Self)
        requires
            forall|s: &Struct| call_requires(f, (s,)),
        ensures
            ret@ == old(self)@.with_skip(ret@.skips.last()),
            forall|item: MapInput<'_>, skip: bool|
                ret@.skips.last().decides(item, skip) <==> match item {
                    MapInput::Struct(s) => call_ensures(f, (s,), skip),
                    _ => !skip,
                },
            *final(self) == *final(ret),
    {
        self.skips.push(SkipRule::for_structs(f));
        self
    }

    /// Configures whether all tests for a field are skipped or not.
    pub fn skip_field(&mut self, f: impl Fn(&Struct, &Field) -> bool + 'static) -> (ret: &mut Self)
        requires
            forall|s: &Struct, field: &Field| call_requires(f, (s, field)),
        ensures
            ret@ == old(self)@.with_skip(ret@.skips.last()),
            forall|item: MapInput<'_>, skip: bool|
                ret@.skips.last().decides(item, skip) <==> match item {
                    MapInput::Field(s, field) => call_ensures(f, (s, field), skip),
                    _ => !skip,
                },
            *final(self) == *final(ret),
    {
        self.skips.push(SkipRule::for_fields(f));
        self
    }

    /// Configures whether the test of a field's type is skipped or not.
    pub fn skip_field_type(&mut self, f: impl Fn(&Struct, &Field) -> bool + 'static) -> (ret: &mut Self)
        requires
            forall|s: &Struct, field: &Field| call_requires(f, (s, field)),
        ensures
            ret@ == old(self)@.with_skip(ret@.skips.last()),
            forall|item: MapInput<'_>, skip: bool|
                ret@.skips.last().decides(item, skip) <==> match item {
                    MapInput::FieldType(s, field) => call_ensures(f, (s, field), skip),
                    _ => !skip,
                },
            *final(self) == *final(ret),
    {
        self.skips.push(SkipRule::for_field_types(f));
        self
    }

    /// Configures whether all tests for a typedef are skipped or not.
    pub fn skip_alias(&mut self, f: impl Fn(&Type) -> bool + 'static) -> (ret: &mut Self)
        requires
            forall|alias: &Type| call_requires(f, (alias,)),
        ensures
            ret@ == old(self)@.with_skip(ret@.skips.last()),
            forall|item: MapInput<'_>, skip: bool|
                ret@.skips.last().decides(item, skip) <==> match item {
                    MapInput::Alias(alias) => call_ensures(f, (alias,), skip),
                    _ => !skip,
                },
            *final(self) == *final(ret),
    {
        self.skips.push(SkipRule::for_aliases(f));
        self
    }

    /// Configures whether the tests for a constant's value are generated.
    pub fn skip_const(&mut self, f: impl Fn(&Const) -> bool + 'static) -> (ret: &mut Self)
        requires
            forall|constant: &Const| call_requires(f, (constant,)),
        ensures
            ret@ == old(self)@.with_skip(ret@.skips.last()),
            forall|item: MapInput<'_>, skip: bool|
                ret@.skips.last().decides(item, skip) <==> match item {
                    MapInput::Const(constant) => call_ensures(f, (constant,), skip),
                    _ => !skip,
                },
            *final(self) == *final(ret),
    {
        self.skips.push(SkipRule::for_constants(f));
        self
    }

    /// Configures whether the tests for a static definition are generated.
    pub fn skip_static(&mut self, f: impl Fn(&Static) -> bool + 'static) -> (ret: &mut Self)
        requires
            forall|item: &Static| call_requires(f, (item,)),
        ensures
            ret@ == old(self)@.with_skip(ret@.skips.last()),
            forall|item: MapInput<'_>, skip: bool|
                ret@.skips.last().decides(item, skip) <==> match item {
                    MapInput::Static(item) => call_ensures(f, (item,), skip),
                    _ => !skip,
                },
            *final(self) == *final(ret),
    {
        self.skips.push(SkipRule::for_statics(f));
        self
    }

    /// Configures whether tests for a function definition are generated.
    pub fn skip_fn(&mut self, f: impl Fn(&crate::ast::Fn) -> bool + 'static) -> (ret: &mut Self)
        requires
            forall|function: &crate::ast::Fn| call_requires(f, (function,)),
        ensures
            ret@ == old(self)@.with_skip(ret@.skips.last()),
            forall|item: MapInput<'_>, skip: bool|
                ret@.skips.last().decides(item, skip) <==> match item {
                    MapInput::Fn(function) => call_ensures(f, (function,), skip),
                    _ => !skip,
                },
            *final(self) == *final(ret),
    {
        self.skips.push(SkipRule::for_functions(f));
        self
    }

    /// Configures which structs, unions and aliases get no test of their
    /// size, alignment and field offsets. A rule set earlier is replaced.
    pub fn skip_roundtrip(&mut self, f: impl Fn(&str) -> bool + 'static) -> (ret: &mut Self)
        requires
            forall|ident: &str| call_requires(f, (ident,)),
        ensures
            ret@ == (GeneratorView { skip_roundtrip: ret@.skip_roundtrip, ..old(self)@ }),
            ret@.skip_roundtrip is Some,
            forall|ident: &str, skip: bool|
                ret@.skip_roundtrip->0.decides(ident, skip) <==> call_ensures(f, (ident,), skip),
            *final(self) == *final(ret),
    {
        self.skip_roundtrip = Some(NameRule::new(f));
        self
    }

    /// Configures which aliases get no test of their signedness. A rule
    /// set earlier is replaced.
    pub fn skip_signededness(&mut self, f: impl Fn(&str) -> bool + 'static) -> (ret: &mut Self)
        requires
            forall|ident: &str| call_requires(f, (ident,)),
        ensures
            ret@ == (GeneratorView { skip_signededness: ret@.skip_signededness, ..old(self)@ }),
            ret@.skip_signededness is Some,
            forall|ident: &str, skip: bool|
                ret@.skip_signededness->0.decides(ident, skip) <==> call_ensures(
                    f,
                    (ident,),
                    skip,
                ),
            *final(self) == *final(ret),
    {
        self.skip_signededness = Some(NameRule::new(f));
        self
    }

    /// Configures which functions get no test of their function pointer.
    /// A rule set earlier is replaced.
    pub fn skip_fn_ptr_check(&mut self, f: impl Fn(&str) -> bool + 'static) -> (ret: &mut Self)
        requires
            forall|ident: &str| call_requires(f, (ident,)),
        ensures
            ret@ == (GeneratorView { skip_fn_ptr_check: ret@.skip_fn_ptr_check, ..old(self)@ }),
            ret@.skip_fn_ptr_check is Some,
            forall|ident: &str, skip: bool|
                ret@.skip_fn_ptr_check->0.decides(ident, skip) <==> call_ensures(
                    f,
                    (ident,),
                    skip,
                ),
            *final(self) == *final(ret),
    {
        self.skip_fn_ptr_check = Some(NameRule::new(f));
        self
    }

    /// Sets whether structs and unions with an array among their fields
    /// get a test of their layout. They get none unless this is set.
    pub fn roundtrip_arrays(&mut self, test: bool) -> (ret: &mut Self)
        ensures
            ret@ == (GeneratorView { roundtrip_arrays: test, ..old(self)@ }),
            *final(self) == *final(ret),
    {
        self.roundtrip_arrays = test;
        self
    }

    /// Sets the programming language.
    ///
    /// This is used to generate C++ versions of the test that can be
    /// compiled and run in the same way as C.
    pub fn language(&mut self, language: Language) -> (ret: &mut Self)
        ensures
            ret@ == (GeneratorView { language, ..old(self)@ }),
            *final(self) == *final(ret),
    {
        self.language = language;
        self
    }

    /// Add a flag to the C compiler invocation.
    pub fn flag(&mut self, flag: &str) -> (ret: &mut Self)
        ensures
            ret@ == (GeneratorView { flags: old(self)@.flags.push(flag@), ..old(self)@ }),
            *final(self) == *final(ret),
    {
        self.flags.push(flag.to_string());
        assert(views(self.flags@) =~= views(old(self).flags@).push(flag@));
        self
    }

    /// Set a `-D` flag for the C compiler being called.
    ///
    /// This can be used to define various variables to configure how header
    /// files are read or what APIs are exposed from header files.
    pub fn define(&mut self, k: &str, v: Option<&str>) -> (ret: &mut Self)
        ensures
            ret@ == (GeneratorView {
                defines: old(self)@.defines.push(
                    (
                        k@,
                        match v {
                            Some(v) => Some(v@),
                            None => None,
                        },
                    ),
                ),
                ..old(self)@
            }),
            *final(self) == *final(ret),
    {
        let value = match v {
            Some(v) => Some(v.to_string()),
            None => None,
        };
        self.defines.push((k.to_string(), value));
        assert(defined(self.defines@) =~= defined(old(self).defines@).push(
            (
                k@,
                match v {
                    Some(v) => Some(v@),
                    None => None,
                },
            ),
        ));
        self
    }

    /// Sets a `--cfg` option with which the crate is expanded.
    pub fn cfg(&mut self, k: &str, v: Option<&str>) -> (ret: &mut Self)
        ensures
            ret@ == (GeneratorView {
                cfg: old(self)@.cfg.push(
                    (
                        k@,
                        match v {
                            Some(v) => Some(v@),
                            None => None,
                        },
                    ),
                ),
                ..old(self)@
            }),
            *final(self) == *final(ret),
    {
        let value = match v {
            Some(v) => Some(v.to_string()),
            None => None,
        };
        self.cfg.push((k.to_string(), value));
        assert(defined(self.cfg@) =~= defined(old(self).cfg@).push(
            (
                k@,
                match v {
                    Some(v) => Some(v@),
                    None => None,
                },
            ),
        ));
        self
    }

    /// Configures how Rust `const`s names are translated to C.
    pub fn rename_constant(&mut self, f: impl Fn(&Const) -> Option<String> + 'static) -> (ret:
        &mut Self)
        requires
            forall|constant: &Const| call_requires(f, (constant,)),
        ensures
            ret@ == old(self)@.with_rename(ret@.mapped_names.last()),
            forall|item: MapInput<'_>, name: Option<String>|
                ret@.mapped_names.last().gives(item, name) <==> match item {
                    MapInput::Const(constant) => call_ensures(f, (constant,), name),
                    _ => name is None,
                },
            *final(self) == *final(ret),
    {
        self.mapped_names.push(RenameRule::for_constants(f));
        self
    }

    /// Configures how a Rust struct field is translated to a C struct field.
    pub fn rename_field(
        &mut self,
        f: impl Fn(&Struct, &Field) -> Option<String> + 'static,
    ) -> (ret: &mut Self)
        requires
            forall|s: &Struct, field: &Field| call_requires(f, (s, field)),
        ensures
            ret@ == old(self)@.with_rename(ret@.mapped_names.last()),
            forall|item: MapInput<'_>, name: Option<String>|
                ret@.mapped_names.last().gives(item, name) <==> match item {
                    MapInput::Field(s, field) => call_ensures(f, (s, field), name),
                    _ => name is None,
                },
            *final(self) == *final(ret),
    {
        self.mapped_names.push(RenameRule::for_fields(f));
        self
    }

    /// Configures the name of a function in the generated C code.
    pub fn rename_fn(&mut self, f: impl Fn(&crate::ast::Fn) -> Option<String> + 'static) -> (ret:
        &mut Self)
        requires
            forall|function: &crate::ast::Fn| call_requires(f, (function,)),
        ensures
            ret@ == old(self)@.with_rename(ret@.mapped_names.last()),
            forall|item: MapInput<'_>, name: Option<String>|
                ret@.mapped_names.last().gives(item, name) <==> match item {
                    MapInput::Fn(function) => call_ensures(f, (function,), name),
                    _ => name is None,
                },
            *final(self) == *final(ret),
    {
        self.mapped_names.push(RenameRule::for_functions(f));
        self
    }

    /// Configures how a Rust type is translated to a C type.
    pub fn rename_type(&mut self, f: impl Fn(&str, TyKind) -> Option<String> + 'static) -> (ret:
        &mut Self)
        requires
            forall|ty: &str, kind: TyKind| call_requires(f, (ty, kind)),
        ensures
            ret@ == old(self)@.with_rename(ret@.mapped_names.last()),
            forall|item: MapInput<'_>, name: Option<String>|
                ret@.mapped_names.last().gives(item, name) <==> match item {
                    MapInput::Type(ty, kind) => call_ensures(f, (ty, kind), name),
                    _ => name is None,
                },
            *final(self) == *final(ret),
    {
        self.mapped_names.push(RenameRule::for_types(f));
        self
    }

    /// The target as a string slice.
    pub fn target_str(&self) -> (target: Option<&str>)
        ensures
            match target {
                Some(t) => self@.target == Some(t@),
                None => self@.target is None,
            },
    {
        match &self.target {
            Some(t) => Some(t.as_str()),
            None => None,
        }
    }

    /// The arguments that hand the `--cfg` options to the compiler when
    /// the crate is expanded.
    pub fn expansion_arguments(&self) -> (arguments: Vec<String>)
        ensures
            views(arguments@) == cfg_arguments(self@.cfg),
    {
        let mut arguments: Vec<String> = Vec::new();
        let mut k: usize = 0;
        assert(self@.cfg.take(0) =~= Seq::empty());
        assert(views(arguments@) =~= Seq::empty());
        while k < self.cfg.len()
            invariant
                k <= self.cfg.len(),
                views(arguments@) == cfg_arguments(self@.cfg.take(k as int)),
            decreases self.cfg.len() - k,
        {
            assert(self@.cfg.take(k + 1).drop_last() =~= self@.cfg.take(k as int));
            let ghost before = views(arguments@);
            let option = match &self.cfg[k].1 {
                None => self.cfg[k].0.clone(),
                Some(value) => {
                    let mut option = self.cfg[k].0.clone();
                    option.append("=\"");
                    option.append(value.as_str());
                    option.append("\"");
                    option
                },
            };
            arguments.push("--cfg".to_string());
            arguments.push(option);
            assert(views(arguments@) =~= before.push("--cfg"@).push(
                cfg_option(self@.cfg[k as int]),
            ));
            k = k + 1;
        }
        assert(self@.cfg.take(k as int) =~= self@.cfg);
        arguments
    }
}

} // verus!
