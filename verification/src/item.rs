//! The items that binding annotations give rise to.

use vstd::prelude::*;

verus! {

/// How an item reaches the runtime module.
#[derive(Debug, Clone, Copy, PartialEq, Eq, Hash, Structural)]
pub enum ItemKind {
    /// A callable, installed as a wrapped, named function.
    Function,
    /// A callable that is invoked once at registration; what it returns is
    /// installed.
    EvaluatedAttr,
    /// A type, installed as the class that its construction routine makes.
    Class,
}

/// A bindable item: the identifier of the declaration and the external name
/// under which it is installed.
#[derive(Debug, PartialEq, Eq, Hash)]
pub enum ModuleItem {
    Function { item_ident: String, py_name: String },
    EvaluatedAttr { item_ident: String, py_name: String },
    Class { item_ident: String, py_name: String },
}

/// A bindable item with its names as sequences of characters.
pub struct ModuleItemView {
    pub kind: ItemKind,
    pub item_ident: Seq<char>,
    pub py_name: Seq<char>,
}

impl View for ModuleItem {
    type V = ModuleItemView;

    open spec fn view(&self) -> ModuleItemView {
        match *self {
            ModuleItem::Function { item_ident, py_name } => ModuleItemView {
                kind: ItemKind::Function,
                item_ident: item_ident@,
                py_name: py_name@,
            },
            ModuleItem::EvaluatedAttr { item_ident, py_name } => ModuleItemView {
                kind: ItemKind::EvaluatedAttr,
                item_ident: item_ident@,
                py_name: py_name@,
            },
            ModuleItem::Class { item_ident, py_name } => ModuleItemView {
                kind: ItemKind::Class,
                item_ident: item_ident@,
                py_name: py_name@,
            },
        }
    }
}

impl Clone for ModuleItem {
    fn clone(&self) -> (res: Self)
        ensures
            res == *self,
    {
        match self {
            ModuleItem::Function { item_ident, py_name } => ModuleItem::Function {
                item_ident: item_ident.clone(),
                py_name: py_name.clone(),
            },
            ModuleItem::EvaluatedAttr { item_ident, py_name } => ModuleItem::EvaluatedAttr {
                item_ident: item_ident.clone(),
                py_name: py_name.clone(),
            },
            ModuleItem::Class { item_ident, py_name } => ModuleItem::Class {
                item_ident: item_ident.clone(),
                py_name: py_name.clone(),
            },
        }
    }
}

impl ModuleItem {
    /// An item of the given kind.
    pub fn new(kind: ItemKind, item_ident: String, py_name: String) -> (res: ModuleItem)
        ensures
            res@ == (ModuleItemView { kind, item_ident: item_ident@, py_name: py_name@ }),
    {
        match kind {
            ItemKind::Function => ModuleItem::Function { item_ident, py_name },
            ItemKind::EvaluatedAttr => ModuleItem::EvaluatedAttr { item_ident, py_name },
            ItemKind::Class => ModuleItem::Class { item_ident, py_name },
        }
    }

    /// The external name under which the item is installed.
    pub fn name(&self) -> (res: String)
        ensures
            res@ == self@.py_name,
    {
        match self {
            ModuleItem::Function { py_name, .. } => py_name.clone(),
            ModuleItem::EvaluatedAttr { py_name, .. } => py_name.clone(),
            ModuleItem::Class { py_name, .. } => py_name.clone(),
        }
    }

    /// The identifier of the declaration that the item binds.
    pub fn ident(&self) -> (res: &String)
        ensures
            res@ == self@.item_ident,
    {
        match self {
            ModuleItem::Function { item_ident, .. } => item_ident,
            ModuleItem::EvaluatedAttr { item_ident, .. } => item_ident,
            ModuleItem::Class { item_ident, .. } => item_ident,
        }
    }

    /// How the item reaches the runtime module.
    pub fn kind(&self) -> (res: ItemKind)
        ensures
            res == self@.kind,
    {
        match self {
            ModuleItem::Function { .. } => ItemKind::Function,
            ModuleItem::EvaluatedAttr { .. } => ItemKind::EvaluatedAttr,
            ModuleItem::Class { .. } => ItemKind::Class,
        }
    }
}

} // verus!
