//! The index of what a declaration tree declares.

use crate::ast::{
    Abi, Const, Fn, ForeignFn, ForeignItem, ForeignStatic, Item, Static, Struct, Type, Union,
};
use crate::text::{same_text, views};
use vstd::prelude::*;

verus! {

/// Every declaration of a tree that has a counterpart in C, by kind and
/// in the order of declaration.
#[derive(Debug)]
pub struct FfiItems {
    pub aliases: Vec<Type>,
    pub structs: Vec<Struct>,
    pub unions: Vec<Union>,
    pub constants: Vec<Const>,
    pub foreign_functions: Vec<Fn>,
    pub foreign_statics: Vec<Static>,
}

/// An index as six sequences.
pub struct Declared {
    pub aliases: Seq<Type>,
    pub structs: Seq<Struct>,
    pub unions: Seq<Union>,
    pub constants: Seq<Const>,
    pub foreign_functions: Seq<Fn>,
    pub foreign_statics: Seq<Static>,
}

impl View for FfiItems {
    type V = Declared;

    open spec fn view(&self) -> Declared {
        Declared {
            aliases: self.aliases@,
            structs: self.structs@,
            unions: self.unions@,
            constants: self.constants@,
            foreign_functions: self.foreign_functions@,
            foreign_statics: self.foreign_statics@,
        }
    }
}

/// The convention of the items of a foreign block: the one it names, and C
/// where it names none.
pub open spec fn block_abi(abi: Option<Abi>) -> Abi {
    match abi {
        Some(abi) => abi,
        None => Abi::C,
    }
}

/// A function of a foreign block as a declaration of its own.
pub open spec fn declared_fn(abi: Abi, function: ForeignFn) -> Fn {
    Fn {
        public: function.public,
        abi,
        ident: function.ident,
        link_name: function.link_name,
        parameters: function.parameters,
        return_type: function.return_type,
    }
}

/// A static of a foreign block as a declaration of its own.
pub open spec fn declared_static(abi: Abi, item: ForeignStatic) -> Static {
    Static { public: item.public, abi, ident: item.ident, link_name: item.link_name, ty: item.ty }
}

impl Declared {
    /// The index that holds nothing.
    pub open spec fn empty() -> Declared {
        Declared {
            aliases: Seq::empty(),
            structs: Seq::empty(),
            unions: Seq::empty(),
            constants: Seq::empty(),
            foreign_functions: Seq::empty(),
            foreign_statics: Seq::empty(),
        }
    }

    /// The index after the items of a foreign block with convention `abi`:
    /// its functions and statics are added, in order.
    pub open spec fn with_foreign_items(self, abi: Abi, items: Seq<ForeignItem>) -> Declared
        decreases items.len(),
    {
        if items.len() == 0 {
            self
        } else {
            let before = self.with_foreign_items(abi, items.drop_last());
            match items.last() {
                ForeignItem::Fn(function) => Declared {
                    foreign_functions: before.foreign_functions.push(declared_fn(abi, function)),
                    ..before
                },
                ForeignItem::Static(item) => Declared {
                    foreign_statics: before.foreign_statics.push(declared_static(abi, item)),
                    ..before
                },
                ForeignItem::Other => before,
            }
        }
    }

    /// The index after `item`: a declaration is added to the list of its
    /// kind, a foreign block adds its functions and statics, and a module
    /// adds what its items add.
    pub open spec fn with_item(self, item: Item) -> Declared
        decreases item,
    {
        match item {
            Item::Type(alias) => Declared { aliases: self.aliases.push(alias), ..self },
            Item::Const(constant) => Declared { constants: self.constants.push(constant), ..self },
            Item::Struct(s) => Declared { structs: self.structs.push(s), ..self },
            Item::Union(u) => Declared { unions: self.unions.push(u), ..self },
            Item::ForeignMod { abi, items } => self.with_foreign_items(block_abi(abi), items@),
            Item::Mod { content } => self.with_items(content@),
            Item::Other => self,
        }
    }

    /// The index after `items`, taken in order.
    pub open spec fn with_items(self, items: Seq<Item>) -> Declared
        decreases items,
    {
        if items.len() == 0 {
            self
        } else {
            self.with_items(items.drop_last()).with_item(items.last())
        }
    }

    /// The names of the structs, in order.
    pub open spec fn struct_names(self) -> Seq<Seq<char>> {
        Seq::new(self.structs.len(), |i: int| self.structs[i].ident@)
    }

    /// The names of the unions, in order.
    pub open spec fn union_names(self) -> Seq<Seq<char>> {
        Seq::new(self.unions.len(), |i: int| self.unions[i].ident@)
    }

    /// Whether a struct of this name is declared.
    pub open spec fn has_struct(self, ident: Seq<char>) -> bool {
        exists|i: int| 0 <= i < self.structs.len() && (#[trigger] self.structs[i]).ident@ == ident
    }

    /// Whether a union of this name is declared.
    pub open spec fn has_union(self, ident: Seq<char>) -> bool {
        exists|i: int| 0 <= i < self.unions.len() && (#[trigger] self.unions[i]).ident@ == ident
    }
}

/// A name is among the names of the structs exactly if a struct of that
/// name is declared, and likewise for the unions.
pub proof fn lemma_names_are_of_declarations(items: Declared, ident: Seq<char>)
    ensures
        items.struct_names().contains(ident) <==> items.has_struct(ident),
        items.union_names().contains(ident) <==> items.has_union(ident),
{
    if items.has_struct(ident) {
        let i = choose|i: int|
            0 <= i < items.structs.len() && (#[trigger] items.structs[i]).ident@ == ident;
        assert(items.struct_names()[i] == ident);
    }
    if items.struct_names().contains(ident) {
        let i = choose|i: int| 0 <= i < items.struct_names().len() && items.struct_names()[i] == ident;
        assert(items.structs[i].ident@ == ident);
    }
    if items.has_union(ident) {
        let i = choose|i: int|
            0 <= i < items.unions.len() && (#[trigger] items.unions[i]).ident@ == ident;
        assert(items.union_names()[i] == ident);
    }
    if items.union_names().contains(ident) {
        let i = choose|i: int| 0 <= i < items.union_names().len() && items.union_names()[i] == ident;
        assert(items.unions[i].ident@ == ident);
    }
}

impl FfiItems {
    /// The names of the structs, in order.
    pub fn struct_names(&self) -> (names: Vec<String>)
        ensures
            views(names@) == self@.struct_names(),
    {
        let mut names: Vec<String> = Vec::new();
        let mut i: usize = 0;
        while i < self.structs.len()
            invariant
                i <= self.structs.len(),
                views(names@) == Seq::new(i as nat, |k: int| self@.structs[k].ident@),
            decreases self.structs.len() - i,
        {
            let ghost before = views(names@);
            names.push(self.structs[i].ident.clone());
            assert(views(names@) =~= before.push(self@.structs[i as int].ident@));
            i = i + 1;
        }
        assert(views(names@) =~= self@.struct_names());
        names
    }

    /// The names of the unions, in order.
    pub fn union_names(&self) -> (names: Vec<String>)
        ensures
            views(names@) == self@.union_names(),
    {
        let mut names: Vec<String> = Vec::new();
        let mut i: usize = 0;
        while i < self.unions.len()
            invariant
                i <= self.unions.len(),
                views(names@) == Seq::new(i as nat, |k: int| self@.unions[k].ident@),
            decreases self.unions.len() - i,
        {
            let ghost before = views(names@);
            names.push(self.unions[i].ident.clone());
            assert(views(names@) =~= before.push(self@.unions[i as int].ident@));
            i = i + 1;
        }
        assert(views(names@) =~= self@.union_names());
        names
    }

    /// An index that holds nothing.
    pub fn new() -> (items: Self)
        ensures
            items@ == Declared::empty(),
    {
        FfiItems {
            aliases: Vec::new(),
            structs: Vec::new(),
            unions: Vec::new(),
            constants: Vec::new(),
            foreign_functions: Vec::new(),
            foreign_statics: Vec::new(),
        }
    }

    /// Whether a struct named `ident` is declared.
    pub fn contains_struct(&self, ident: &str) -> (found: bool)
        ensures
            found == self@.has_struct(ident@),
    {
        let mut i: usize = 0;
        while i < self.structs.len()
            invariant
                i <= self.structs.len(),
                forall|j: int| 0 <= j < i ==> (#[trigger] self.structs@[j]).ident@ != ident@,
            decreases self.structs.len() - i,
        {
            if same_text(self.structs[i].ident.as_str(), ident) {
                assert(self@.structs[i as int].ident@ == ident@);
                return true;
            }
            i = i + 1;
        }
        false
    }

    /// Whether a union named `ident` is declared.
    pub fn contains_union(&self, ident: &str) -> (found: bool)
        ensures
            found == self@.has_union(ident@),
    {
        let mut i: usize = 0;
        while i < self.unions.len()
            invariant
                i <= self.unions.len(),
                forall|j: int| 0 <= j < i ==> (#[trigger] self.unions@[j]).ident@ != ident@,
            decreases self.unions.len() - i,
        {
            if same_text(self.unions[i].ident.as_str(), ident) {
                assert(self@.unions[i as int].ident@ == ident@);
                return true;
            }
            i = i + 1;
        }
        false
    }
}

impl FfiItems {
    /// Adds what `file` declares: every alias, constant, struct and union,
    /// and the functions and statics of every foreign block, in the order
    /// of declaration, modules included.
    pub fn visit_file(&mut self, file: Vec<Item>)
        ensures
            final(self)@ == old(self)@.with_items(file@),
        decreases file,
    {
        let ghost all = file@;
        assert(all.take(0) =~= Seq::empty());
        for item in it: file
            invariant
                it.seq() == all,
                self@ == old(self)@.with_items(all.take(it.index() as int)),
        {
            assert(all.take(it.index() + 1).drop_last() =~= all.take(it.index() as int));
            self.visit_item(item);
        }
        assert(all.take(all.len() as int) =~= all);
    }

    /// Adds what `item` declares.
    pub fn visit_item(&mut self, item: Item)
        ensures
            final(self)@ == old(self)@.with_item(item),
        decreases item,
    {
        match item {
            Item::Type(alias) => self.aliases.push(alias),
            Item::Const(constant) => self.constants.push(constant),
            Item::Struct(s) => self.structs.push(s),
            Item::Union(u) => self.unions.push(u),
            Item::ForeignMod { abi, items } => {
                let abi = match abi {
                    Some(abi) => abi,
                    None => Abi::C,
                };
                self.visit_foreign_items(&abi, items);
            },
            Item::Mod { content } => self.visit_file(content),
            Item::Other => {},
        }
    }

    /// Adds the functions and statics of a foreign block with convention `abi`.
    fn visit_foreign_items(&mut self, abi: &Abi, items: Vec<ForeignItem>)
        ensures
            final(self)@ == old(self)@.with_foreign_items(*abi, items@),
    {
        let ghost all = items@;
        assert(all.take(0) =~= Seq::empty());
        for item in it: items
            invariant
                it.seq() == all,
                self@ == old(self)@.with_foreign_items(*abi, all.take(it.index() as int)),
        {
            assert(all.take(it.index() + 1).drop_last() =~= all.take(it.index() as int));
            match item {
                ForeignItem::Fn(function) => {
                    self.foreign_functions.push(
                        Fn {
                            public: function.public,
                            abi: abi.clone(),
                            ident: function.ident,
                            link_name: function.link_name,
                            parameters: function.parameters,
                            return_type: function.return_type,
                        },
                    );
                },
                ForeignItem::Static(item) => {
                    self.foreign_statics.push(
                        Static {
                            public: item.public,
                            abi: abi.clone(),
                            ident: item.ident,
                            link_name: item.link_name,
                            ty: item.ty,
                        },
                    );
                },
                ForeignItem::Other => {},
            }
        }
        assert(all.take(all.len() as int) =~= all);
    }
}

} // verus!
