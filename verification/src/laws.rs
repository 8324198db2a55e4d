//! Laws of extraction and of the registry.

use crate::diagnostic::{duplicate_error, shape_error, DiagnosticView};
use crate::extract::{
    add_bindings, extract_item, extraction, lemma_scan_extends, lemma_strip_push, scan, strip,
    Extracted, Extraction, Keyword,
};
use crate::item::ModuleItemView;
use crate::registry::{add_binding, distinct_keys, has_key, Binding};
use crate::syntax::{Attribute, Meta, Span};
use vstd::prelude::*;

verus! {

/// An annotation of the shape `name = value` under a binding keyword gives
/// the shape error that suggests the parenthesized form of that keyword, at
/// the annotation, whatever the value and the declaration.
pub proof fn law_name_value_is_refused(keyword: Keyword, ident: Seq<char>, meta: Meta)
    requires
        meta.form is NameValue,
    ensures
        extraction(keyword, ident, meta) == Err::<ModuleItemView, DiagnosticView>(
            shape_error(keyword.text(), meta.span),
        ),
{
}

/// A declaration with a binding annotation of the shape `name = value` fails
/// to extract with the shape error of that annotation's keyword, and nothing
/// changes. This holds where no annotation before it raises an error: the
/// first error is the one reported.
pub proof fn law_shape_error_fails_extraction(
    bindings: Seq<Binding>,
    ident: Seq<char>,
    attrs: Seq<Attribute>,
    index: int,
)
    requires
        0 <= index < attrs.len(),
        attrs[index].keyword() is Some,
        attrs[index].meta->0.form is NameValue,
        scan(ident, attrs.take(index)) is Ok,
    ensures
        extract_item(bindings, ident, attrs) == (Extraction {
            bindings,
            attrs,
            failure: Some(
                shape_error(attrs[index].keyword()->0.text(), attrs[index].meta->0.span),
            ),
        }),
{
    assert(attrs.take(index + 1).drop_last() =~= attrs.take(index));
    assert(attrs.take(index + 1).last() == attrs[index]);
    lemma_scan_extends(ident, attrs, index + 1);
}

/// Of two items with the same external name under the same guards, the
/// second insertion fails: it leaves the registry as the first insertion left
/// it, and its error names the external name of the first item. This holds
/// whatever the registry held before and whether or not the first insertion
/// succeeded.
pub proof fn law_second_insertion_fails(
    bindings: Seq<Binding>,
    first: ModuleItemView,
    second: ModuleItemView,
    cfgs: Seq<Seq<char>>,
    first_span: Span,
    second_span: Span,
)
    requires
        first.py_name == second.py_name,
    ensures
        ({
            let after = add_binding(bindings, first, cfgs, first_span).0;
            add_binding(after, second, cfgs, second_span) == (
                after,
                Some(duplicate_error(first.py_name, second_span)),
            )
        }),
{
    let after = add_binding(bindings, first, cfgs, first_span).0;
    if !has_key(bindings, first.py_name, cfgs) {
        let last = bindings.len() as int;
        assert(after[last].item.py_name == first.py_name && after[last].cfgs == cfgs);
    } else {
        assert(after == bindings);
    }
}

/// Guards disambiguate: two items with the same external name under
/// different guard lists both go into an empty registry, in order.
pub proof fn law_guards_disambiguate(
    first: ModuleItemView,
    second: ModuleItemView,
    first_cfgs: Seq<Seq<char>>,
    second_cfgs: Seq<Seq<char>>,
    first_span: Span,
    second_span: Span,
)
    requires
        first.py_name == second.py_name,
        first_cfgs != second_cfgs,
    ensures
        ({
            let (one, first_failure) = add_binding(Seq::empty(), first, first_cfgs, first_span);
            let (two, second_failure) = add_binding(one, second, second_cfgs, second_span);
            &&& first_failure is None
            &&& second_failure is None
            &&& two == seq![
                Binding { item: first, cfgs: first_cfgs },
                Binding { item: second, cfgs: second_cfgs },
            ]
        }),
{
    let one = add_binding(Seq::empty(), first, first_cfgs, first_span).0;
    assert(one =~= seq![Binding { item: first, cfgs: first_cfgs }]);
    assert(!has_key(one, second.py_name, second_cfgs));
    let two = add_binding(one, second, second_cfgs, second_span).0;
    assert(two =~= seq![
        Binding { item: first, cfgs: first_cfgs },
        Binding { item: second, cfgs: second_cfgs },
    ]);
}

/// An insertion takes no key but its own: whether a key is taken after an
/// insertion under other guards is what it was before. So in any registry,
/// two items with the same external name under different guard lists are
/// each inserted exactly where their own key was free.
pub proof fn law_insertion_takes_one_key(
    bindings: Seq<Binding>,
    item: ModuleItemView,
    cfgs: Seq<Seq<char>>,
    span: Span,
    name: Seq<char>,
    other_cfgs: Seq<Seq<char>>,
)
    requires
        name != item.py_name || other_cfgs != cfgs,
    ensures
        has_key(add_binding(bindings, item, cfgs, span).0, name, other_cfgs) == has_key(
            bindings,
            name,
            other_cfgs,
        ),
{
    let after = add_binding(bindings, item, cfgs, span).0;
    if has_key(bindings, name, other_cfgs) {
        let i = choose|i: int|
            0 <= i < bindings.len() && (#[trigger] bindings[i]).item.py_name == name
                && bindings[i].cfgs == other_cfgs;
        if after != bindings {
            assert(after[i] == bindings[i]);
        }
    }
    if has_key(after, name, other_cfgs) {
        let i = choose|i: int|
            0 <= i < after.len() && (#[trigger] after[i]).item.py_name == name && after[i].cfgs
                == other_cfgs;
        if after != bindings {
            assert(i < bindings.len());
            assert(after[i] == bindings[i]);
        }
    }
}

/// Insertion keeps the registry's invariant: if no two bindings shared a key
/// before, none do after.
pub proof fn law_insertion_keeps_keys_distinct(
    bindings: Seq<Binding>,
    item: ModuleItemView,
    cfgs: Seq<Seq<char>>,
    span: Span,
)
    requires
        distinct_keys(bindings),
    ensures
        distinct_keys(add_binding(bindings, item, cfgs, span).0),
{
    let after = add_binding(bindings, item, cfgs, span).0;
    if !has_key(bindings, item.py_name, cfgs) {
        assert forall|i: int, j: int| 0 <= i < j < after.len() implies !((
        #[trigger] after[i]).item.py_name == (#[trigger] after[j]).item.py_name && after[i].cfgs
            == after[j].cfgs) by {
            if j < bindings.len() {
                assert(after[i] == bindings[i]);
                assert(after[j] == bindings[j]);
            } else {
                assert(after[i] == bindings[i]);
            }
        }
    }
}

/// What stripping leaves holds no binding annotation.
pub proof fn law_strip_leaves_no_binding(attrs: Seq<Attribute>)
    ensures
        forall|i: int| 0 <= i < strip(attrs).len() ==> (#[trigger] strip(attrs)[i]).keyword() is None,
    decreases attrs.len(),
{
    if attrs.len() == 0 {
        reveal(Seq::filter);
    } else {
        law_strip_leaves_no_binding(attrs.drop_last());
        lemma_strip_push(attrs.drop_last(), attrs.last());
        assert(attrs.drop_last().push(attrs.last()) =~= attrs);
    }
}

/// A declaration without binding annotations gives no items, and stripping
/// leaves its annotations as they are.
pub proof fn law_nothing_to_extract(ident: Seq<char>, attrs: Seq<Attribute>)
    requires
        forall|i: int| 0 <= i < attrs.len() ==> (#[trigger] attrs[i]).keyword() is None,
    ensures
        scan(ident, attrs) == Ok::<Seq<Extracted>, DiagnosticView>(Seq::empty()),
        strip(attrs) == attrs,
    decreases attrs.len(),
{
    if attrs.len() == 0 {
        reveal(Seq::filter);
    } else {
        law_nothing_to_extract(ident, attrs.drop_last());
        lemma_strip_push(attrs.drop_last(), attrs.last());
        assert(attrs.drop_last().push(attrs.last()) =~= attrs);
    }
}

/// Stripping is idempotent: extracting once more from a declaration whose
/// extraction succeeded finds no item, and leaves the registry and every
/// remaining annotation as they are, in their order.
pub proof fn law_extraction_is_idempotent(
    bindings: Seq<Binding>,
    ident: Seq<char>,
    attrs: Seq<Attribute>,
)
    requires
        extract_item(bindings, ident, attrs).failure is None,
    ensures
        ({
            let once = extract_item(bindings, ident, attrs);
            &&& scan(ident, once.attrs) == Ok::<Seq<Extracted>, DiagnosticView>(Seq::empty())
            &&& extract_item(once.bindings, ident, once.attrs) == (Extraction {
                bindings: once.bindings,
                attrs: once.attrs,
                failure: None,
            })
        }),
{
    let once = extract_item(bindings, ident, attrs);
    assert(once.attrs == strip(attrs));
    law_strip_leaves_no_binding(attrs);
    law_nothing_to_extract(ident, once.attrs);
}

/// Order is kept: of the annotations `before`, `binding`, `after`, of which
/// only the middle one binds, a successful extraction leaves exactly
/// `before`, `after`, in that order.
pub proof fn law_order_is_preserved(
    bindings: Seq<Binding>,
    ident: Seq<char>,
    before: Attribute,
    binding: Attribute,
    after: Attribute,
)
    requires
        before.keyword() is None,
        binding.keyword() is Some,
        after.keyword() is None,
        extract_item(bindings, ident, seq![before, binding, after]).failure is None,
    ensures
        extract_item(bindings, ident, seq![before, binding, after]).attrs == seq![before, after],
{
    let none = Seq::<Attribute>::empty();
    assert(strip(none) =~= none) by {
        reveal(Seq::filter);
    }
    lemma_strip_push(none, before);
    lemma_strip_push(none.push(before), binding);
    lemma_strip_push(none.push(before).push(binding), after);
    assert(none.push(before).push(binding).push(after) =~= seq![before, binding, after]);
    assert(none.push(before).push(after) =~= seq![before, after]);
}

} // verus!
