//! The walk over a module body, and the expansion of an annotated module.

use crate::diagnostic::{diagnostic_views, Diagnostic, DiagnosticView, ErrorKind};
use crate::emit::{fragment_views, registrations, source, Fragment, FragmentView};
use crate::extract::{extract_item, kinds_legal};
use crate::registry::{Binding, Module};
use crate::syntax::{Attribute, Item, ItemIdent, ItemMod, NestedMeta, Span};
use crate::util::{def_to_name, external_name, NameSet};
use vstd::prelude::*;

verus! {

/// What the walk over a list of declarations comes to.
pub struct Walk {
    /// The registry afterwards.
    pub bindings: Seq<Binding>,
    /// The annotations of each declaration afterwards.
    pub attrs: Seq<Seq<Attribute>>,
    /// The errors of the declarations whose extraction failed, in order.
    pub diagnostics: Seq<DiagnosticView>,
}

/// The walk: the declarations are extracted in order into one registry that
/// starts empty. A declaration whose extraction fails adds its error, and the
/// walk goes on with the next.
pub open spec fn walk(items: Seq<ItemIdent>) -> Walk
    decreases items.len(),
{
    if items.len() == 0 {
        Walk { bindings: Seq::empty(), attrs: Seq::empty(), diagnostics: Seq::empty() }
    } else {
        let earlier = walk(items.drop_last());
        let last = extract_item(earlier.bindings, items.last().ident@, items.last().attrs@);
        Walk {
            bindings: last.bindings,
            attrs: earlier.attrs.push(last.attrs),
            diagnostics: match last.failure {
                Some(diagnostic) => earlier.diagnostics.push(diagnostic),
                None => earlier.diagnostics,
            },
        }
    }
}

/// In every declaration, each binding annotation that extraction gets to
/// stands on a declaration of a kind that it may stand on.
pub open spec fn all_kinds_legal(items: Seq<ItemIdent>) -> bool {
    forall|i: int|
        0 <= i < items.len() ==> kinds_legal(
            (#[trigger] items[i]).typ,
            items[i].ident@,
            items[i].attrs@,
        )
}

/// Whether in every declaration each binding annotation that extraction
/// gets to stands on a declaration of a kind that it may stand on.
pub fn all_legal(items: &Vec<ItemIdent>) -> (res: bool)
    ensures
        res == all_kinds_legal(items@),
{
    let mut i: usize = 0;
    while i < items.len()
        invariant
            i <= items.len(),
            all_kinds_legal(items@.take(i as int)),
        decreases items.len() - i,
    {
        if !items[i].is_legal() {
            return false;
        }
        assert forall|k: int| 0 <= k < i + 1 implies kinds_legal(
            (#[trigger] items@.take(i + 1)[k]).typ,
            items@.take(i + 1)[k].ident@,
            items@.take(i + 1)[k].attrs@,
        ) by {
            if k < i {
                assert(items@.take(i as int)[k] == items@.take(i + 1)[k]);
            }
        }
        i = i + 1;
    }
    assert(items@.take(i as int) =~= items@);
    true
}

/// `after` holds the declarations `before`, each with the annotations that
/// `attrs` gives it.
pub open spec fn rewritten(
    before: Seq<ItemIdent>,
    after: Seq<ItemIdent>,
    attrs: Seq<Seq<Attribute>>,
) -> bool {
    &&& after.len() == before.len()
    &&& attrs.len() == before.len()
    &&& forall|i: int|
        0 <= i < before.len() ==> (#[trigger] after[i]).typ == before[i].typ && after[i].ident
            == before[i].ident && after[i].attrs@ == attrs[i]
}

/// Extracts the items of all declarations and emits their registration
/// statements.
///
/// The walk goes through all declarations whatever fails on the way. Where
/// anything failed, all the errors come back together, in the order of the
/// declarations; else the registration statements of the registered items,
/// in the order of their insertion.
pub fn extract_module_items(items: &mut Vec<ItemIdent>, module_name: &str) -> (res: Result<
    Vec<Fragment>,
    Vec<Diagnostic>,
>)
    requires
        all_kinds_legal(old(items)@),
    ensures
        rewritten(old(items)@, final(items)@, walk(old(items)@).attrs),
        match res {
            Ok(code) => walk(old(items)@).diagnostics.len() == 0 && fragment_views(code@)
                == registrations(walk(old(items)@).bindings, module_name@),
            Err(diagnostics) => diagnostics@.len() > 0 && diagnostic_views(diagnostics@) == walk(
                old(items)@,
            ).diagnostics,
        },
{
    let ghost before = items@;
    let mut diagnostics: Vec<Diagnostic> = Vec::new();
    let mut module = Module::default();
    let mut i: usize = 0;
    proof {
        assert(before.take(0) =~= Seq::<ItemIdent>::empty());
        assert(diagnostic_views(diagnostics@) =~= Seq::<DiagnosticView>::empty());
        assert(walk(before.take(0)).attrs =~= Seq::<Seq<Attribute>>::empty());
    }
    while i < items.len()
        invariant
            i <= items.len(),
            items.len() == before.len(),
            all_kinds_legal(before),
            module.wf(),
            walk(before.take(i as int)).bindings == module@,
            walk(before.take(i as int)).diagnostics == diagnostic_views(diagnostics@),
            rewritten(before.take(i as int), items@.take(i as int), walk(before.take(i as int)).attrs),
            forall|j: int| i <= j < items.len() ==> items@[j] == before[j],
        decreases items.len() - i,
    {
        let ghost known = diagnostic_views(diagnostics@);
        let ghost walked = items@;
        proof {
            assert(before.take(i + 1).drop_last() =~= before.take(i as int));
            assert(before.take(i + 1).last() == before[i as int]);
        }
        match module.extract_item_from_syn(&mut items[i]) {
            Ok(()) => {},
            Err(diagnostic) => {
                diagnostics.push(diagnostic);
                assert(diagnostic_views(diagnostics@) =~= known.push(diagnostic@));
            },
        }
        proof {
            let later = walk(before.take(i + 1));
            assert forall|j: int| 0 <= j < i + 1 implies (#[trigger] items@.take(i + 1)[j]).typ
                == before.take(i + 1)[j].typ && items@.take(i + 1)[j].ident == before.take(
                i + 1,
            )[j].ident && items@.take(i + 1)[j].attrs@ == later.attrs[j] by {
                if j < i {
                    assert(items@.take(i + 1)[j] == walked.take(i as int)[j]);
                    assert(before.take(i + 1)[j] == before.take(i as int)[j]);
                }
            }
        }
        i = i + 1;
    }
    proof {
        assert(before.take(i as int) =~= before);
        assert(items@.take(i as int) =~= items@);
    }
    if diagnostics.len() > 0 {
        return Err(diagnostics);
    }
    Ok(module.emit(module_name))
}

/// The head of the registration routine, up to the start of its body.
pub const EXTEND_MODULE_HEAD: &'static str =
    "pub(crate) fn extend_module(\n    vm: &::rustpython_vm::vm::VirtualMachine,\n    module: &::rustpython_vm::pyobject::PyObjectRef,\n) {\n";

/// The routine that makes the module.
pub const MAKE_MODULE: &'static str =
    "#[allow(dead_code)]\npub(crate) fn make_module(\n    vm: &::rustpython_vm::vm::VirtualMachine\n) -> ::rustpython_vm::pyobject::PyObjectRef {\n    let module = vm.new_module(MODULE_NAME, vm.ctx.new_dict());\n    extend_module(vm, &module);\n    module\n}\n";

/// The wording for a module annotation on something that is no module.
pub open spec fn not_module_message() -> Seq<char> {
    "#[pymodule] can only be on a module declaration"@
}

/// The wording for a module annotation on a module without a body.
pub open spec fn no_body_message() -> Seq<char> {
    "#[pymodule] can only be on a module declaration with body"@
}

/// The error with the wording `message` at `span` for a module annotation
/// that stands on the wrong declaration.
pub open spec fn declaration_error(message: Seq<char>, span: Span) -> DiagnosticView {
    DiagnosticView { span, kind: ErrorKind::Declaration, message }
}

/// The constant that holds the module's external name.
pub open spec fn name_constant(module_name: Seq<char>) -> Seq<FragmentView> {
    seq![
        FragmentView::Source("pub(crate) const MODULE_NAME: &str = "@),
        FragmentView::Str(module_name),
        FragmentView::Source(";\n"@),
    ]
}

/// The routine that runs every registration statement on a given module
/// object.
pub open spec fn extend_routine(bindings: Seq<Binding>, module_name: Seq<char>) -> Seq<
    FragmentView,
> {
    seq![
        FragmentView::Source(
            EXTEND_MODULE_HEAD@,
        ),
    ] + registrations(bindings, module_name) + seq![FragmentView::Source("}\n"@)]
}

/// The routine that makes a fresh module object and runs the registration
/// statements on it.
pub open spec fn make_routine() -> Seq<FragmentView> {
    seq![
        FragmentView::Source(
            MAKE_MODULE@,
        ),
    ]
}

/// The declarations that are appended to the body of an expanded module: the
/// name constant, the registration routine and the routine that makes the
/// module.
pub open spec fn generated_items(bindings: Seq<Binding>, module_name: Seq<char>) -> Seq<
    Seq<FragmentView>,
> {
    seq![name_constant(module_name), extend_routine(bindings, module_name), make_routine()]
}

/// The views of a list of declarations given as code.
pub open spec fn code_views(items: Seq<Vec<Fragment>>) -> Seq<Seq<FragmentView>> {
    Seq::new(items.len(), |i: int| fragment_views(items[i]@))
}

/// An expanded module: the module with the binding annotations stripped from
/// its declarations, and the declarations to append to its body.
#[derive(Debug, PartialEq, Eq)]
pub struct Expansion {
    pub module: ItemMod,
    pub generated: Vec<Vec<Fragment>>,
}

fn declaration_failure(message: &str, span: Span) -> (res: Vec<Diagnostic>)
    ensures
        diagnostic_views(res@) == seq![declaration_error(message@, span)],
{
    let mut list: Vec<Diagnostic> = Vec::new();
    list.push(Diagnostic::span_error(span, ErrorKind::Declaration, message.to_owned()));
    assert(diagnostic_views(list@) =~= seq![declaration_error(message@, span)]);
    list
}

/// What the expansion of `item` under the arguments `attr` of its module
/// annotation comes to: the errors, or the walk over the body and the
/// module's external name.
pub open spec fn expansion(attr: Seq<NestedMeta>, item: Item) -> Result<
    (Walk, Seq<char>),
    Seq<DiagnosticView>,
> {
    match item {
        Item::Other { span } => Err(seq![declaration_error(not_module_message(), span)]),
        Item::Mod(module) => match external_name(
            "pymodule"@,
            module.ident@,
            attr,
            NameSet::Simple,
            module.span,
        ) {
            Err(diagnostic) => Err(seq![diagnostic]),
            Ok(module_name) => match module.content {
                None => Err(seq![declaration_error(no_body_message(), module.span)]),
                Some(items) => if walk(items@).diagnostics.len() > 0 {
                    Err(walk(items@).diagnostics)
                } else {
                    Ok((walk(items@), module_name))
                },
            },
        },
    }
}

/// The declarations of the body of `item` are annotated legally, as far as
/// the expansion gets to walk them.
pub open spec fn expandable(attr: Seq<NestedMeta>, item: Item) -> bool {
    match item {
        Item::Mod(module) => external_name(
            "pymodule"@,
            module.ident@,
            attr,
            NameSet::Simple,
            module.span,
        ) is Ok ==> match module.content {
            Some(items) => all_kinds_legal(items@),
            None => true,
        },
        Item::Other { .. } => true,
    }
}

/// Expands a module that carries the module annotation with the arguments
/// `attr`.
///
/// The module's external name is the annotation's explicit `name`, else the
/// module's identifier. The body's declarations are walked; where that leaves
/// no error, the binding annotations are stripped from them, and the name
/// constant, the registration routine and the routine that makes the module
/// are to be appended to the body.
pub fn impl_pymodule(attr: Vec<NestedMeta>, item: Item) -> (res: Result<
    Expansion,
    Vec<Diagnostic>,
>)
    requires
        expandable(attr@, item),
    ensures
        match expansion(attr@, item) {
            Err(diagnostics) => res is Err && diagnostic_views(res->Err_0@) == diagnostics,
            Ok((walked, module_name)) => {
                &&& res is Ok
                &&& res->Ok_0.module.span == item->Mod_0.span
                &&& res->Ok_0.module.ident == item->Mod_0.ident
                &&& res->Ok_0.module.content is Some
                &&& rewritten(
                    item->Mod_0.content->0@,
                    res->Ok_0.module.content->0@,
                    walked.attrs,
                )
                &&& code_views(res->Ok_0.generated@) == generated_items(
                    walked.bindings,
                    module_name,
                )
            },
        },
{
    let module = match item {
        Item::Mod(module) => module,
        Item::Other { span } => {
            return Err(
                declaration_failure("#[pymodule] can only be on a module declaration", span),
            );
        },
    };
    let ItemMod { span, ident, content } = module;
    let module_name = match def_to_name(ident.as_str(), "pymodule", attr, span) {
        Ok(module_name) => module_name,
        Err(diagnostic) => {
            let mut list: Vec<Diagnostic> = Vec::new();
            list.push(diagnostic);
            assert(diagnostic_views(list@) =~= seq![diagnostic@]);
            return Err(list);
        },
    };
    let mut items = match content {
        Some(items) => items,
        None => {
            return Err(
                declaration_failure(
                    "#[pymodule] can only be on a module declaration with body",
                    span,
                ),
            );
        },
    };
    let ghost before = items@;
    let extend_mod = match extract_module_items(&mut items, module_name.as_str()) {
        Ok(code) => code,
        Err(diagnostics) => {
            return Err(diagnostics);
        },
    };
    let ghost bindings = walk(before).bindings;
    let mut constant: Vec<Fragment> = Vec::new();
    constant.push(source("pub(crate) const MODULE_NAME: &str = "));
    constant.push(Fragment::Str(module_name.clone()));
    constant.push(source(";\n"));
    assert(fragment_views(constant@) =~= name_constant(module_name@));
    let mut extend: Vec<Fragment> = Vec::new();
    extend.push(
        source(
            EXTEND_MODULE_HEAD,
        ),
    );
    let ghost opened = fragment_views(extend@);
    let mut statements = extend_mod;
    extend.append(&mut statements);
    assert(fragment_views(extend@) =~= opened + registrations(bindings, module_name@));
    let ghost filled = fragment_views(extend@);
    extend.push(source("}\n"));
    assert(fragment_views(extend@) =~= extend_routine(bindings, module_name@)) by {
        assert(fragment_views(extend@) =~= filled.push(FragmentView::Source("}\n"@)));
    }
    let mut make: Vec<Fragment> = Vec::new();
    make.push(
        source(
            MAKE_MODULE,
        ),
    );
    assert(fragment_views(make@) =~= make_routine());
    let mut generated: Vec<Vec<Fragment>> = Vec::new();
    generated.push(constant);
    generated.push(extend);
    generated.push(make);
    assert(code_views(generated@) =~= generated_items(bindings, module_name@));
    Ok(Expansion { module: ItemMod { span, ident, content: Some(items) }, generated })
}

} // verus!
