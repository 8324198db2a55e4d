//! Classification of annotations, and the extraction of a declaration's
//! items into the registry.

use crate::diagnostic::{shape_error, Diagnostic, DiagnosticView};
use crate::item::{ItemKind, ModuleItem, ModuleItemView};
use crate::registry::{add_binding, failure, texts, Binding, Module};
use crate::syntax::{Attribute, ItemIdent, ItemType, Meta, MetaForm, NestedMeta, Span};
use crate::util::{external_name, ItemMeta, NameSet};
use vstd::prelude::*;

verus! {

/// The four annotation names that bind a declaration.
#[derive(Debug, Clone, Copy, PartialEq, Eq, Hash, Structural)]
pub enum Keyword {
    PyFunction,
    PyAttr,
    PyClass,
    PyStructSequence,
}

impl Keyword {
    /// The annotation's name.
    pub open spec fn text(self) -> Seq<char> {
        match self {
            Keyword::PyFunction => "pyfunction"@,
            Keyword::PyAttr => "pyattr"@,
            Keyword::PyClass => "pyclass"@,
            Keyword::PyStructSequence => "pystruct_sequence"@,
        }
    }

    /// The keyword that `name` spells, if it spells one. The match is exact.
    pub open spec fn of(name: Seq<char>) -> Option<Keyword> {
        if name == "pyfunction"@ {
            Some(Keyword::PyFunction)
        } else if name == "pyattr"@ {
            Some(Keyword::PyAttr)
        } else if name == "pyclass"@ {
            Some(Keyword::PyClass)
        } else if name == "pystruct_sequence"@ {
            Some(Keyword::PyStructSequence)
        } else {
            None
        }
    }

    /// The argument set that the annotation declares.
    pub open spec fn names(self) -> NameSet {
        match self {
            Keyword::PyStructSequence => NameSet::StructSequence,
            _ => NameSet::Simple,
        }
    }

    /// The kind of item that the annotation gives.
    pub open spec fn item_kind(self) -> ItemKind {
        match self {
            Keyword::PyFunction => ItemKind::Function,
            Keyword::PyAttr => ItemKind::EvaluatedAttr,
            Keyword::PyClass => ItemKind::Class,
            Keyword::PyStructSequence => ItemKind::Class,
        }
    }

    /// Whether the annotation may stand on a declaration of kind `typ`:
    /// `pyfunction` and `pyattr` on functions, `pyclass` and
    /// `pystruct_sequence` on structs.
    pub open spec fn legal_on(self, typ: ItemType) -> bool {
        match self {
            Keyword::PyFunction => typ == ItemType::Fn,
            Keyword::PyAttr => typ == ItemType::Fn,
            Keyword::PyClass => typ == ItemType::Struct,
            Keyword::PyStructSequence => typ == ItemType::Struct,
        }
    }

    /// The keyword that `name` spells, if it spells one.
    pub fn parse(name: &String) -> (res: Option<Keyword>)
        ensures
            res == Keyword::of(name@),
    {
        if *name == "pyfunction".to_owned() {
            Some(Keyword::PyFunction)
        } else if *name == "pyattr".to_owned() {
            Some(Keyword::PyAttr)
        } else if *name == "pyclass".to_owned() {
            Some(Keyword::PyClass)
        } else if *name == "pystruct_sequence".to_owned() {
            Some(Keyword::PyStructSequence)
        } else {
            None
        }
    }

    /// The annotation's name.
    pub fn as_str(self) -> (res: &'static str)
        ensures
            res@ == self.text(),
    {
        match self {
            Keyword::PyFunction => "pyfunction",
            Keyword::PyAttr => "pyattr",
            Keyword::PyClass => "pyclass",
            Keyword::PyStructSequence => "pystruct_sequence",
        }
    }

    /// The argument set that the annotation declares.
    pub fn name_set(self) -> (res: NameSet)
        ensures
            res == self.names(),
    {
        match self {
            Keyword::PyStructSequence => NameSet::StructSequence,
            _ => NameSet::Simple,
        }
    }

    /// Whether the annotation may stand on a declaration of kind `typ`.
    pub fn allowed_on(self, typ: ItemType) -> (res: bool)
        ensures
            res == self.legal_on(typ),
    {
        match self {
            Keyword::PyFunction => typ == ItemType::Fn,
            Keyword::PyAttr => typ == ItemType::Fn,
            Keyword::PyClass => typ == ItemType::Struct,
            Keyword::PyStructSequence => typ == ItemType::Struct,
        }
    }
}

/// The argument list of an annotation: empty for a bare name, the list as it
/// stands for a parenthesized one. An annotation of the shape `name = value`
/// is handed back as the error.
pub fn meta_to_vec(meta: Meta) -> (res: Result<Vec<NestedMeta>, Meta>)
    ensures
        match meta.form.args() {
            Some(nested) => res is Ok && res->Ok_0@ == nested,
            None => res == Err::<Vec<NestedMeta>, Meta>(meta),
        },
{
    match meta.form {
        MetaForm::Path => Ok(Vec::new()),
        MetaForm::List(list) => Ok(list),
        MetaForm::NameValue(lit) => Err(
            Meta {
                span: meta.span,
                ident: meta.ident,
                form: MetaForm::NameValue(lit),
                tokens: meta.tokens,
            },
        ),
    }
}

/// What the annotation `keyword`, given as `meta`, makes of the declaration
/// `ident`: a shape error where `meta` has the shape `name = value`; the
/// argument error that its list raises; else the item of the keyword's kind
/// under the resolved external name. Every error stands at the annotation.
pub open spec fn extraction(keyword: Keyword, ident: Seq<char>, meta: Meta) -> Result<
    ModuleItemView,
    DiagnosticView,
> {
    match meta.form.args() {
        None => Err(shape_error(keyword.text(), meta.span)),
        Some(nested) => match external_name(
            keyword.text(),
            ident,
            nested,
            keyword.names(),
            meta.span,
        ) {
            Ok(py_name) => Ok(
                ModuleItemView { kind: keyword.item_kind(), item_ident: ident, py_name },
            ),
            Err(diagnostic) => Err(diagnostic),
        },
    }
}

/// The view of an extraction's outcome.
pub open spec fn outcome(res: Result<ModuleItem, Diagnostic>) -> Result<
    ModuleItemView,
    DiagnosticView,
> {
    match res {
        Ok(item) => Ok(item@),
        Err(diagnostic) => Err(diagnostic@),
    }
}

fn extract(keyword: Keyword, ident: &str, meta: Meta) -> (res: Result<ModuleItem, Diagnostic>)
    ensures
        outcome(res) == extraction(keyword, ident@, meta),
{
    let span = meta.span;
    let nested = match meta_to_vec(meta) {
        Ok(nested) => nested,
        Err(_) => {
            return Err(Diagnostic::shape(keyword.as_str(), span));
        },
    };
    let item_meta = match ItemMeta::from_nested_meta(
        keyword.as_str(),
        ident,
        span,
        &nested,
        keyword.name_set(),
    ) {
        Ok(item_meta) => item_meta,
        Err(diagnostic) => {
            return Err(diagnostic);
        },
    };
    let py_name = match item_meta.simple_name() {
        Ok(py_name) => py_name,
        Err(diagnostic) => {
            return Err(diagnostic);
        },
    };
    let kind = match keyword {
        Keyword::PyFunction => ItemKind::Function,
        Keyword::PyAttr => ItemKind::EvaluatedAttr,
        Keyword::PyClass => ItemKind::Class,
        Keyword::PyStructSequence => ItemKind::Class,
    };
    Ok(ModuleItem::new(kind, ident.to_owned(), py_name))
}

impl Attribute {
    /// The binding keyword that names the annotation, if one does.
    pub open spec fn keyword(self) -> Option<Keyword> {
        match self.name() {
            Some(name) => Keyword::of(name),
            None => None,
        }
    }

    /// Whether the annotation is a guard: a structured annotation named
    /// `cfg`.
    pub open spec fn is_guard(self) -> bool {
        self.name() == Some("cfg"@)
    }

    /// The binding keyword that names the annotation, if one does.
    pub fn binding(&self) -> (res: Option<Keyword>)
        ensures
            res == self.keyword(),
    {
        match &self.meta {
            Some(meta) => match &meta.ident {
                Some(name) => Keyword::parse(name),
                None => None,
            },
            None => None,
        }
    }
}

/// The guards of a declaration: the texts of its `cfg` annotations, in
/// source order.
pub open spec fn guards(attrs: Seq<Attribute>) -> Seq<Seq<char>> {
    attrs.filter(|attr: Attribute| attr.is_guard()).map_values(
        |attr: Attribute| attr.meta->0.tokens@,
    )
}

/// The annotations that extraction leaves on a declaration: all but the
/// binding annotations, in their order.
pub open spec fn strip(attrs: Seq<Attribute>) -> Seq<Attribute> {
    attrs.filter(|attr: Attribute| attr.keyword() is None)
}

/// An item with the place of the annotation that gave it.
pub struct Extracted {
    pub item: ModuleItemView,
    pub span: Span,
}

/// The items that the binding annotations among `attrs` give, in source
/// order; or the error of the first one that raises one.
pub open spec fn scan(ident: Seq<char>, attrs: Seq<Attribute>) -> Result<
    Seq<Extracted>,
    DiagnosticView,
>
    decreases attrs.len(),
{
    if attrs.len() == 0 {
        Ok(Seq::empty())
    } else {
        match scan(ident, attrs.drop_last()) {
            Err(diagnostic) => Err(diagnostic),
            Ok(items) => match attrs.last().keyword() {
                None => Ok(items),
                Some(keyword) => match extraction(keyword, ident, attrs.last().meta->0) {
                    Ok(item) => Ok(
                        items.push(Extracted { item, span: attrs.last().meta->0.span }),
                    ),
                    Err(diagnostic) => Err(diagnostic),
                },
            },
        }
    }
}

/// Inserts `items` in order, each under the guards `cfgs`, up to the first
/// insertion that fails.
pub open spec fn add_bindings(
    bindings: Seq<Binding>,
    items: Seq<Extracted>,
    cfgs: Seq<Seq<char>>,
) -> (Seq<Binding>, Option<DiagnosticView>)
    decreases items.len(),
{
    if items.len() == 0 {
        (bindings, None)
    } else {
        let (next, failed) = add_binding(bindings, items[0].item, cfgs, items[0].span);
        if failed is Some {
            (next, failed)
        } else {
            add_bindings(next, items.drop_first(), cfgs)
        }
    }
}

/// What the extraction of one declaration comes to.
pub struct Extraction {
    /// The registry afterwards.
    pub bindings: Seq<Binding>,
    /// The declaration's annotations afterwards.
    pub attrs: Seq<Attribute>,
    /// The error, if the extraction failed.
    pub failure: Option<DiagnosticView>,
}

/// The extraction of the declaration `ident` with the annotations `attrs`
/// into `bindings`.
///
/// Where an annotation raises an error, nothing changes. Else the items go
/// into the registry in source order, each under all the guards of the
/// declaration. Where an insertion fails, the items before it stay
/// registered and the annotations stay as they are. Where all succeed, the
/// binding annotations leave the declaration.
pub open spec fn extract_item(bindings: Seq<Binding>, ident: Seq<char>, attrs: Seq<Attribute>)
    -> Extraction {
    match scan(ident, attrs) {
        Err(diagnostic) => Extraction { bindings, attrs, failure: Some(diagnostic) },
        Ok(items) => {
            let (next, failed) = add_bindings(bindings, items, guards(attrs));
            if failed is Some {
                Extraction { bindings: next, attrs, failure: failed }
            } else {
                Extraction { bindings: next, attrs: strip(attrs), failure: None }
            }
        },
    }
}

/// Every binding annotation among `attrs` that extraction gets to may stand
/// on a declaration of kind `typ`. Extraction gets to an annotation where no
/// annotation before it raises an error.
pub open spec fn kinds_legal(typ: ItemType, ident: Seq<char>, attrs: Seq<Attribute>) -> bool {
    forall|i: int|
        0 <= i < attrs.len() && scan(ident, attrs.take(i)) is Ok ==> match (
        #[trigger] attrs[i]).keyword() {
            Some(keyword) => keyword.legal_on(typ),
            None => true,
        }
}

impl ItemIdent {
    /// Whether every binding annotation of the declaration that extraction
    /// gets to may stand on a declaration of its kind.
    pub fn is_legal(&self) -> (res: bool)
        ensures
            res == kinds_legal(self.typ, self.ident@, self.attrs@),
    {
        let ghost attrs = self.attrs@;
        let ghost ident = self.ident@;
        let mut i: usize = 0;
        assert(attrs.take(0) =~= Seq::<Attribute>::empty());
        while i < self.attrs.len()
            invariant
                i <= self.attrs.len(),
                attrs == self.attrs@,
                ident == self.ident@,
                scan(ident, attrs.take(i as int)) is Ok,
                forall|k: int|
                    0 <= k < i ==> match (#[trigger] attrs[k]).keyword() {
                        Some(keyword) => keyword.legal_on(self.typ),
                        None => true,
                    },
            decreases self.attrs.len() - i,
        {
            proof {
                assert(attrs.take(i + 1).drop_last() =~= attrs.take(i as int));
            }
            match &self.attrs[i].meta {
                Some(meta) => match &meta.ident {
                    Some(name) => match Keyword::parse(name) {
                        Some(keyword) => {
                            assert(attrs[i as int].keyword() == Some(keyword));
                            if !keyword.allowed_on(self.typ) {
                                return false;
                            }
                            if extract(keyword, self.ident.as_str(), meta.clone()).is_err() {
                                proof {
                                    assert forall|k: int| i < k < attrs.len() implies !(scan(
                                        ident,
                                        attrs.take(k),
                                    ) is Ok) by {
                                        assert(attrs.take(k).take(i + 1) =~= attrs.take(i + 1));
                                        lemma_scan_extends(ident, attrs.take(k), i + 1);
                                    }
                                }
                                return true;
                            }
                        },
                        None => {},
                    },
                    None => {},
                },
                None => {},
            }
            i = i + 1;
        }
        true
    }
}

/// The views of a list of extracted items.
pub open spec fn extracted_views(items: Seq<(ModuleItem, Span)>) -> Seq<Extracted> {
    Seq::new(items.len(), |i: int| Extracted { item: items[i].0@, span: items[i].1 })
}

/// Once a prefix of the annotations raises an error, so does the whole list.
pub proof fn lemma_scan_extends(ident: Seq<char>, attrs: Seq<Attribute>, end: int)
    requires
        0 <= end <= attrs.len(),
        scan(ident, attrs.take(end)) is Err,
    ensures
        scan(ident, attrs) == scan(ident, attrs.take(end)),
    decreases attrs.len() - end,
{
    if end < attrs.len() {
        assert(attrs.take(end + 1).drop_last() =~= attrs.take(end));
        lemma_scan_extends(ident, attrs, end + 1);
    } else {
        assert(attrs.take(end) =~= attrs);
    }
}

/// The guards of a list with one more annotation.
pub proof fn lemma_guards_push(attrs: Seq<Attribute>, attr: Attribute)
    ensures
        guards(attrs.push(attr)) == if attr.is_guard() {
            guards(attrs).push(attr.meta->0.tokens@)
        } else {
            guards(attrs)
        },
{
    reveal(Seq::filter);
    assert(attrs.push(attr).drop_last() =~= attrs);
    let kept = attrs.filter(|attr: Attribute| attr.is_guard());
    if attr.is_guard() {
        assert(kept.push(attr).map_values(|attr: Attribute| attr.meta->0.tokens@) =~= kept.map_values(
            |attr: Attribute| attr.meta->0.tokens@,
        ).push(attr.meta->0.tokens@));
    }
}

/// What stripping leaves of a list with one more annotation.
pub proof fn lemma_strip_push(attrs: Seq<Attribute>, attr: Attribute)
    ensures
        strip(attrs.push(attr)) == if attr.keyword() is None {
            strip(attrs).push(attr)
        } else {
            strip(attrs)
        },
{
    reveal(Seq::filter);
    assert(attrs.push(attr).drop_last() =~= attrs);
}

/// Removes the binding annotations and keeps the others in their order.
fn strip_bindings(attrs: &mut Vec<Attribute>)
    ensures
        final(attrs)@ == strip(old(attrs)@),
{
    let ghost before = attrs@;
    let mut kept: usize = 0;
    let ghost mut done: int = 0;
    proof {
        reveal(Seq::filter);
        assert(before.take(0) =~= Seq::<Attribute>::empty());
        assert(before.skip(0) =~= before);
    }
    while kept < attrs.len()
        invariant
            0 <= done <= before.len(),
            kept == strip(before.take(done)).len(),
            attrs@ == strip(before.take(done)) + before.skip(done),
        decreases before.len() - done,
    {
        proof {
            assert(attrs@[kept as int] == before.skip(done)[0]);
            assert(before.take(done + 1) =~= before.take(done).push(before[done]));
            lemma_strip_push(before.take(done), before[done]);
        }
        if attrs[kept].binding().is_some() {
            let _ = attrs.remove(kept);
            assert(attrs@ =~= strip(before.take(done + 1)) + before.skip(done + 1));
        } else {
            assert(attrs@ =~= strip(before.take(done + 1)) + before.skip(done + 1));
            kept = kept + 1;
        }
        proof {
            done = done + 1;
        }
    }
    proof {
        assert(before.skip(done).len() == 0);
        assert(before.take(done) =~= before);
        assert(attrs@ =~= strip(before));
    }
}

impl Module {
    /// The item that a `pyfunction` annotation gives.
    pub fn extract_function(ident: &str, meta: Meta) -> (res: Result<ModuleItem, Diagnostic>)
        ensures
            outcome(res) == extraction(Keyword::PyFunction, ident@, meta),
    {
        extract(Keyword::PyFunction, ident, meta)
    }

    /// The item that a `pyclass` annotation gives.
    pub fn extract_class(ident: &str, meta: Meta) -> (res: Result<ModuleItem, Diagnostic>)
        ensures
            outcome(res) == extraction(Keyword::PyClass, ident@, meta),
    {
        extract(Keyword::PyClass, ident, meta)
    }

    /// The item that a `pystruct_sequence` annotation gives.
    pub fn extract_struct_sequence(ident: &str, meta: Meta) -> (res: Result<
        ModuleItem,
        Diagnostic,
    >)
        ensures
            outcome(res) == extraction(Keyword::PyStructSequence, ident@, meta),
    {
        extract(Keyword::PyStructSequence, ident, meta)
    }

    /// The item that a `pyattr` annotation gives.
    pub fn extract_attr(ident: &str, meta: Meta) -> (res: Result<ModuleItem, Diagnostic>)
        ensures
            outcome(res) == extraction(Keyword::PyAttr, ident@, meta),
    {
        extract(Keyword::PyAttr, ident, meta)
    }

    /// Extracts the items of one declaration into the registry and strips
    /// the binding annotations from the declaration.
    pub fn extract_item_from_syn(&mut self, item: &mut ItemIdent) -> (res: Result<(), Diagnostic>)
        requires
            old(self).wf(),
            kinds_legal(old(item).typ, old(item).ident@, old(item).attrs@),
        ensures
            final(self).wf(),
            final(item).typ == old(item).typ,
            final(item).ident == old(item).ident,
            ({
                let extraction = extract_item(old(self)@, old(item).ident@, old(item).attrs@);
                &&& final(self)@ == extraction.bindings
                &&& final(item).attrs@ == extraction.attrs
                &&& failure(res) == extraction.failure
            }),
    {
        let ghost attrs = item.attrs@;
        let ghost ident = item.ident@;
        let ghost before = self@;
        let mut items: Vec<(ModuleItem, Span)> = Vec::new();
        let mut cfgs: Vec<String> = Vec::new();
        let cfg = "cfg".to_owned();
        let mut i: usize = 0;
        proof {
            reveal(Seq::filter);
            assert(attrs.take(0) =~= Seq::<Attribute>::empty());
            assert(texts(cfgs@) =~= guards(attrs.take(0)));
            assert(extracted_views(items@) =~= Seq::<Extracted>::empty());
        }
        while i < item.attrs.len()
            invariant
                i <= item.attrs.len(),
                item.attrs@ == attrs,
                item.ident@ == ident,
                *item == *old(item),
                *self == *old(self),
                self.wf(),
                cfg@ == "cfg"@,
                kinds_legal(item.typ, ident, attrs),
                scan(ident, attrs.take(i as int)) == Ok::<Seq<Extracted>, DiagnosticView>(
                    extracted_views(items@),
                ),
                texts(cfgs@) == guards(attrs.take(i as int)),
            decreases item.attrs.len() - i,
        {
            proof {
                assert(attrs.take(i + 1) =~= attrs.take(i as int).push(attrs[i as int]));
                assert(attrs.take(i + 1).drop_last() =~= attrs.take(i as int));
                lemma_guards_push(attrs.take(i as int), attrs[i as int]);
                lemma_keyword_is_no_guard(attrs[i as int]);
            }
            let ghost seen = extracted_views(items@);
            match &item.attrs[i].meta {
                Some(meta) => match &meta.ident {
                    Some(name) => match Keyword::parse(name) {
                        Some(keyword) => {
                            assert(attrs[i as int].keyword() == Some(keyword));
                            assert(keyword.legal_on(item.typ));
                            let extracted = match keyword {
                                Keyword::PyFunction => Self::extract_function(
                                    item.ident.as_str(),
                                    meta.clone(),
                                ),
                                Keyword::PyAttr => Self::extract_attr(
                                    item.ident.as_str(),
                                    meta.clone(),
                                ),
                                Keyword::PyClass => Self::extract_class(
                                    item.ident.as_str(),
                                    meta.clone(),
                                ),
                                Keyword::PyStructSequence => Self::extract_struct_sequence(
                                    item.ident.as_str(),
                                    meta.clone(),
                                ),
                            };
                            match extracted {
                                Ok(found) => {
                                    items.push((found, meta.span));
                                    assert(extracted_views(items@) =~= seen.push(
                                        Extracted { item: found@, span: meta.span },
                                    ));
                                },
                                Err(diagnostic) => {
                                    proof {
                                        lemma_scan_extends(ident, attrs, i + 1);
                                    }
                                    return Err(diagnostic);
                                },
                            }
                        },
                        None => {
                            if *name == cfg {
                                let ghost known = texts(cfgs@);
                                cfgs.push(meta.tokens.clone());
                                assert(texts(cfgs@) =~= known.push(meta.tokens@));
                            }
                        },
                    },
                    None => {},
                },
                None => {},
            }
            i = i + 1;
        }
        proof {
            assert(attrs.take(i as int) =~= attrs);
            assert(extracted_views(items@).skip(0) =~= extracted_views(items@));
        }
        let mut k: usize = 0;
        while k < items.len()
            invariant
                k <= items.len(),
                *item == *old(item),
                attrs == old(item).attrs@,
                ident == old(item).ident@,
                before == old(self)@,
                self.wf(),
                scan(ident, attrs) == Ok::<Seq<Extracted>, DiagnosticView>(
                    extracted_views(items@),
                ),
                texts(cfgs@) == guards(attrs),
                add_bindings(before, extracted_views(items@), texts(cfgs@)) == add_bindings(
                    self@,
                    extracted_views(items@).skip(k as int),
                    texts(cfgs@),
                ),
            decreases items.len() - k,
        {
            proof {
                assert(extracted_views(items@).skip(k as int).drop_first() =~= extracted_views(
                    items@,
                ).skip(k + 1));
            }
            let guards = cfgs.clone();
            assert(texts(guards@) =~= texts(cfgs@));
            match self.add_item(items[k].0.clone(), guards, items[k].1) {
                Ok(()) => {},
                Err(diagnostic) => {
                    return Err(diagnostic);
                },
            }
            k = k + 1;
        }
        strip_bindings(&mut item.attrs);
        Ok(())
    }
}

/// A binding annotation is no guard.
pub proof fn lemma_keyword_is_no_guard(attr: Attribute)
    ensures
        attr.keyword() is Some ==> !attr.is_guard(),
{
    reveal_strlit("cfg");
    reveal_strlit("pyfunction");
    reveal_strlit("pyattr");
    reveal_strlit("pyclass");
    reveal_strlit("pystruct_sequence");
    assert("cfg"@.len() == 3);
    assert("pyfunction"@.len() == 10);
    assert("pyattr"@.len() == 6);
    assert("pyclass"@.len() == 7);
    assert("pystruct_sequence"@.len() == 17);
}

} // verus!
