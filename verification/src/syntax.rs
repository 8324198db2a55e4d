//! The model of declarations and annotations that the extraction works on.

use vstd::prelude::*;

verus! {

/// An opaque source location. The library never looks inside: it carries the
/// location of an annotation to the diagnostics raised for it.
#[derive(Debug, Clone, Copy, PartialEq, Eq, Hash, Structural)]
pub struct Span {
    pub id: usize,
}

/// The kind of a declaration.
#[derive(Debug, Clone, Copy, PartialEq, Eq, Hash, Structural)]
pub enum ItemType {
    Fn,
    Struct,
    Enum,
}

/// A literal that stands as an argument or as the value of a `key = value`
/// pair. Only string literals are ever read.
#[derive(Debug, PartialEq, Eq, Hash)]
pub enum Lit {
    /// A string literal, by its value.
    Str(String),
    /// Any other literal.
    Other,
}

impl Clone for Lit {
    fn clone(&self) -> (res: Self)
        ensures
            res == *self,
    {
        match self {
            Lit::Str(value) => Lit::Str(value.clone()),
            Lit::Other => Lit::Other,
        }
    }
}

/// One argument in the parenthesized list of an annotation.
///
/// A key is the argument's single identifier; it is `None` where the argument
/// is named by a longer path.
#[derive(Debug, PartialEq, Eq, Hash)]
pub enum NestedMeta {
    /// A bare word: `magic`.
    Path { ident: Option<String> },
    /// A pair: `name = "value"`.
    NameValue { ident: Option<String>, lit: Lit },
    /// A nested list: `any(unix, windows)`. Its arguments are not modelled.
    List { ident: Option<String> },
    /// A bare literal.
    Lit(Lit),
}

/// The three shapes an annotation can take.
#[derive(Debug, PartialEq, Eq, Hash)]
pub enum MetaForm {
    /// A bare name: `#[pyfunction]`.
    Path,
    /// A name with a parenthesized argument list: `#[pyfunction(name = "f")]`.
    List(Vec<NestedMeta>),
    /// A name with a value: `#[pyfunction = "f"]`.
    NameValue(Lit),
}

/// A structured annotation.
#[derive(Debug, PartialEq, Eq, Hash)]
pub struct Meta {
    /// Where the annotation stands.
    pub span: Span,
    /// The annotation's name, or `None` where it is named by a longer path.
    pub ident: Option<String>,
    /// The annotation's shape and arguments.
    pub form: MetaForm,
    /// The annotation's source text between `#[` and `]`. Two guards are the
    /// same guard when their texts are equal.
    pub tokens: String,
}

/// An annotation attached to a declaration. `meta` is `None` where the
/// annotation's tokens have none of the three structured shapes; such an
/// annotation is never touched.
#[derive(Debug, PartialEq, Eq, Hash)]
pub struct Attribute {
    pub span: Span,
    pub meta: Option<Meta>,
}

/// A declaration of a module body: its kind, its annotations in source order
/// and its identifier.
#[derive(Debug, PartialEq, Eq, Hash)]
pub struct ItemIdent {
    pub typ: ItemType,
    pub attrs: Vec<Attribute>,
    pub ident: String,
}

/// A module declaration. Of its body the model holds what annotations can
/// bind: the function, struct and enum declarations, in source order. The
/// body is `None` for a module that is declared without one.
#[derive(Debug, PartialEq, Eq, Hash)]
pub struct ItemMod {
    pub span: Span,
    pub ident: String,
    pub content: Option<Vec<ItemIdent>>,
}

/// A declaration that a module annotation stands on.
#[derive(Debug, PartialEq, Eq, Hash)]
pub enum Item {
    /// A module.
    Mod(ItemMod),
    /// Anything else, by its place.
    Other { span: Span },
}

fn clone_ident(ident: &Option<String>) -> (res: Option<String>)
    ensures
        res == *ident,
{
    match ident {
        Some(name) => Some(name.clone()),
        None => None,
    }
}

impl Clone for NestedMeta {
    fn clone(&self) -> (res: Self)
        ensures
            res == *self,
    {
        match self {
            NestedMeta::Path { ident } => NestedMeta::Path { ident: clone_ident(ident) },
            NestedMeta::NameValue { ident, lit } => NestedMeta::NameValue {
                ident: clone_ident(ident),
                lit: lit.clone(),
            },
            NestedMeta::List { ident } => NestedMeta::List { ident: clone_ident(ident) },
            NestedMeta::Lit(lit) => NestedMeta::Lit(lit.clone()),
        }
    }
}

impl MetaForm {
    /// The argument list that the shape carries: none for a bare name, the
    /// list for a parenthesized one. The `name = value` shape has no
    /// argument list.
    pub open spec fn args(self) -> Option<Seq<NestedMeta>> {
        match self {
            MetaForm::Path => Some(Seq::empty()),
            MetaForm::List(list) => Some(list@),
            MetaForm::NameValue(_) => None,
        }
    }
}

impl MetaForm {
    /// Whether `other` has the same shape with the same arguments or value.
    pub open spec fn same_as(self, other: MetaForm) -> bool {
        match self {
            MetaForm::List(list) => other matches MetaForm::List(copy) && copy@ == list@,
            _ => other == self,
        }
    }
}

impl Clone for MetaForm {
    fn clone(&self) -> (res: Self)
        ensures
            self.same_as(res),
    {
        match self {
            MetaForm::Path => MetaForm::Path,
            MetaForm::List(list) => {
                let copy = list.clone();
                assert(copy@ =~= list@);
                MetaForm::List(copy)
            },
            MetaForm::NameValue(lit) => MetaForm::NameValue(lit.clone()),
        }
    }
}

impl Clone for Meta {
    fn clone(&self) -> (res: Self)
        ensures
            self.same_as(res),
    {
        Meta {
            span: self.span,
            ident: clone_ident(&self.ident),
            form: self.form.clone(),
            tokens: self.tokens.clone(),
        }
    }
}

impl Clone for Attribute {
    fn clone(&self) -> (res: Self)
        ensures
            self.same_as(res),
    {
        Attribute {
            span: self.span,
            meta: match &self.meta {
                Some(meta) => Some(meta.clone()),
                None => None,
            },
        }
    }
}

impl Clone for ItemIdent {
    fn clone(&self) -> (res: Self)
        ensures
            self.same_as(res),
    {
        let attrs = self.attrs.clone();
        ItemIdent { typ: self.typ, attrs, ident: self.ident.clone() }
    }
}

impl Clone for ItemMod {
    fn clone(&self) -> (res: Self)
        ensures
            self.same_as(res),
    {
        ItemMod {
            span: self.span,
            ident: self.ident.clone(),
            content: match &self.content {
                Some(items) => Some(items.clone()),
                None => None,
            },
        }
    }
}

impl Clone for Item {
    fn clone(&self) -> (res: Self)
        ensures
            self.same_as(res),
    {
        match self {
            Item::Mod(module) => Item::Mod(module.clone()),
            Item::Other { span } => Item::Other { span: *span },
        }
    }
}

/// The view of an optional identifier.
pub open spec fn ident_view(ident: Option<String>) -> Option<Seq<char>> {
    match ident {
        Some(name) => Some(name@),
        None => None,
    }
}

impl Meta {
    /// Whether `other` is the same annotation at the same place.
    pub open spec fn same_as(self, other: Meta) -> bool {
        &&& other.span == self.span
        &&& other.ident == self.ident
        &&& other.tokens == self.tokens
        &&& self.form.same_as(other.form)
    }

    /// The annotation's name as a sequence of characters.
    pub open spec fn name(self) -> Option<Seq<char>> {
        ident_view(self.ident)
    }

    /// Whether the annotation is named `name`.
    pub open spec fn is_named(self, name: Seq<char>) -> bool {
        self.name() == Some(name)
    }
}

impl Attribute {
    /// Whether `other` is the same annotation at the same place.
    pub open spec fn same_as(self, other: Attribute) -> bool {
        &&& other.span == self.span
        &&& match self.meta {
            Some(meta) => other.meta matches Some(copy) && meta.same_as(copy),
            None => other.meta is None,
        }
    }

    /// The name of the structured annotation, if there is one.
    pub open spec fn name(self) -> Option<Seq<char>> {
        match self.meta {
            Some(meta) => meta.name(),
            None => None,
        }
    }
}

impl ItemIdent {
    /// Whether `other` is the same declaration with the same annotations.
    pub open spec fn same_as(self, other: ItemIdent) -> bool {
        &&& other.typ == self.typ
        &&& other.ident == self.ident
        &&& other.attrs@.len() == self.attrs@.len()
        &&& forall|i: int|
            0 <= i < self.attrs@.len() ==> (#[trigger] self.attrs@[i]).same_as(other.attrs@[i])
    }
}

impl ItemMod {
    /// Whether `other` is the same module with the same declarations.
    pub open spec fn same_as(self, other: ItemMod) -> bool {
        &&& other.span == self.span
        &&& other.ident == self.ident
        &&& match self.content {
            Some(items) => other.content matches Some(copies) && copies@.len() == items@.len()
                && forall|i: int|
                0 <= i < items@.len() ==> (#[trigger] items@[i]).same_as(copies@[i]),
            None => other.content is None,
        }
    }
}

impl Item {
    /// Whether `other` is the same declaration.
    pub open spec fn same_as(self, other: Item) -> bool {
        match self {
            Item::Mod(module) => other matches Item::Mod(copy) && module.same_as(copy),
            Item::Other { span } => other == self,
        }
    }
}

} // verus!
