//! The flags of one package, as the generator reads them.

use vstd::prelude::*;

verus! {

/// Whether a flag is switched on by default.
#[derive(Clone, Copy, Debug, PartialEq, Eq, Structural)]
pub enum FlagState {
    Enabled,
    Disabled,
}

/// Whether a flag's value may be overridden at run time.
#[derive(Clone, Copy, Debug, PartialEq, Eq, Structural)]
pub enum Permission {
    ReadOnly,
    ReadWrite,
}

/// One declared flag.
#[derive(Clone, Debug)]
pub struct Item {
    pub namespace: String,
    pub name: String,
    pub state: FlagState,
    pub permission: Permission,
}

/// The mathematical value of an [`Item`].
pub struct ItemView {
    pub namespace: Seq<char>,
    pub name: Seq<char>,
    pub state: FlagState,
    pub permission: Permission,
}

impl View for Item {
    type V = ItemView;

    open spec fn view(&self) -> ItemView {
        ItemView {
            namespace: self.namespace@,
            name: self.name@,
            state: self.state,
            permission: self.permission,
        }
    }
}

/// The flags of one package, in declaration order.
#[derive(Clone, Debug)]
pub struct Cache {
    pub package: String,
    pub items: Vec<Item>,
}

/// The mathematical value of a [`Cache`].
pub struct CacheView {
    pub package: Seq<char>,
    pub items: Seq<ItemView>,
}

impl View for Cache {
    type V = CacheView;

    open spec fn view(&self) -> CacheView {
        CacheView { package: self.package@, items: self.items@.map_values(|item: Item| item@) }
    }
}

impl Cache {
    /// A cache for `package` that holds `items` in the given order.
    pub fn new(package: String, items: Vec<Item>) -> (cache: Cache)
        ensures
            cache.package == package,
            cache.items == items,
            cache@.package == package@,
            cache@.items == items@.map_values(|item: Item| item@),
    {
        Cache { package, items }
    }

    /// The name of the package that all flags of this cache belong to.
    pub fn package(&self) -> (package: &str)
        ensures
            package@ == self@.package,
    {
        self.package.as_str()
    }
}

} // verus!
