//! The registration code: what is emitted for each registered item, and how
//! code is spelled out as source text.

use crate::item::{ItemKind, ModuleItemView};
use crate::registry::{texts, Binding, Entry, Module};
use vstd::prelude::*;
use vstd::string::StringExecFns;

verus! {

/// A piece of emitted code.
#[derive(Debug, PartialEq, Eq, Hash)]
pub enum Fragment {
    /// Source text, to be taken as it stands.
    Source(String),
    /// A string literal, given by its value.
    Str(String),
}

/// A piece of emitted code over sequences of characters.
pub enum FragmentView {
    Source(Seq<char>),
    Str(Seq<char>),
}

impl View for Fragment {
    type V = FragmentView;

    open spec fn view(&self) -> FragmentView {
        match *self {
            Fragment::Source(text) => FragmentView::Source(text@),
            Fragment::Str(value) => FragmentView::Str(value@),
        }
    }
}

impl Clone for Fragment {
    fn clone(&self) -> (res: Self)
        ensures
            res == *self,
    {
        match self {
            Fragment::Source(text) => Fragment::Source(text.clone()),
            Fragment::Str(value) => Fragment::Str(value.clone()),
        }
    }
}

/// The views of a list of fragments, in order.
pub open spec fn fragment_views(code: Seq<Fragment>) -> Seq<FragmentView> {
    Seq::new(code.len(), |i: int| code[i]@)
}

/// One attribute line for each guard, in order.
pub open spec fn guard_lines(cfgs: Seq<Seq<char>>) -> Seq<FragmentView> {
    Seq::new(cfgs.len(), |i: int| FragmentView::Source("#["@ + cfgs[i] + "]\n"@))
}

/// The expression that makes the value to install.
///
/// A function is wrapped under the module's name and its own external name;
/// an evaluated attribute is the function's result on the runtime handle; a
/// class is what the type's construction routine makes.
pub open spec fn value_code(item: ModuleItemView, module_name: Seq<char>) -> Seq<FragmentView> {
    match item.kind {
        ItemKind::Function => seq![
            FragmentView::Source("vm.ctx.new_function_named("@ + item.item_ident + ", "@),
            FragmentView::Str(module_name),
            FragmentView::Source(".to_owned(), "@),
            FragmentView::Str(item.py_name),
            FragmentView::Source(".to_owned())"@),
        ],
        ItemKind::EvaluatedAttr => seq![
            FragmentView::Source("vm.new_pyobj("@ + item.item_ident + "(vm))"@),
        ],
        ItemKind::Class => seq![
            FragmentView::Source(item.item_ident + "::make_class(&vm.ctx)"@),
        ],
    }
}

/// The registration statement of one binding: its guards, each on a line of
/// its own, then the statement that installs the value under the external
/// name.
pub open spec fn registration(binding: Binding, module_name: Seq<char>) -> Seq<FragmentView> {
    guard_lines(binding.cfgs) + seq![
        FragmentView::Source("vm.__module_set_attr(&module, "@),
        FragmentView::Str(binding.item.py_name),
        FragmentView::Source(", "@),
    ] + value_code(binding.item, module_name) + seq![FragmentView::Source(").unwrap();\n"@)]
}

/// The registration statements of all bindings, in the registry's order.
pub open spec fn registrations(bindings: Seq<Binding>, module_name: Seq<char>) -> Seq<FragmentView>
    decreases bindings.len(),
{
    if bindings.len() == 0 {
        Seq::empty()
    } else {
        registrations(bindings.drop_last(), module_name) + registration(
            bindings.last(),
            module_name,
        )
    }
}

/// A fragment of source text.
pub fn source(text: &str) -> (res: Fragment)
    ensures
        res@ == FragmentView::Source(text@),
{
    Fragment::Source(text.to_owned())
}

/// A fragment of source text in three parts.
fn source3(head: &str, middle: &str, tail: &str) -> (res: Fragment)
    ensures
        res@ == FragmentView::Source(head@ + middle@ + tail@),
{
    let mut text = String::from_str(head);
    text.append(middle);
    text.append(tail);
    Fragment::Source(text)
}

/// A string literal with the value `value`.
pub fn literal(value: &str) -> (res: Fragment)
    ensures
        res@ == FragmentView::Str(value@),
{
    Fragment::Str(value.to_owned())
}

impl Entry {
    /// Appends the entry's registration statement to `code`.
    pub fn emit(&self, module_name: &str, code: &mut Vec<Fragment>)
        ensures
            fragment_views(final(code)@) == fragment_views(old(code)@) + registration(
                self@,
                module_name@,
            ),
    {
        let ghost before = fragment_views(code@);
        let ghost cfgs = texts(self.cfgs@);
        let mut i: usize = 0;
        assert(guard_lines(cfgs).take(0) =~= Seq::<FragmentView>::empty());
        while i < self.cfgs.len()
            invariant
                i <= self.cfgs.len(),
                cfgs == texts(self.cfgs@),
                fragment_views(code@) == before + guard_lines(cfgs).take(i as int),
            decreases self.cfgs.len() - i,
        {
            let ghost known = fragment_views(code@);
            let line = source3("#[", self.cfgs[i].as_str(), "]\n");
            code.push(line);
            assert(fragment_views(code@) =~= known.push(line@));
            assert(guard_lines(cfgs).take(i + 1) =~= guard_lines(cfgs).take(i as int).push(line@));
            i = i + 1;
        }
        assert(guard_lines(cfgs).take(i as int) =~= guard_lines(cfgs));
        let ghost guarded = fragment_views(code@);
        let name = self.item.name();
        let ident = self.item.ident();
        code.push(source("vm.__module_set_attr(&module, "));
        code.push(literal(name.as_str()));
        code.push(source(", "));
        let ghost opened = fragment_views(code@);
        assert(opened =~= guarded + seq![
            FragmentView::Source("vm.__module_set_attr(&module, "@),
            FragmentView::Str(self@.item.py_name),
            FragmentView::Source(", "@),
        ]);
        match self.item.kind() {
            ItemKind::Function => {
                code.push(source3("vm.ctx.new_function_named(", ident.as_str(), ", "));
                code.push(literal(module_name));
                code.push(source(".to_owned(), "));
                code.push(literal(name.as_str()));
                code.push(source(".to_owned())"));
            },
            ItemKind::EvaluatedAttr => {
                code.push(source3("vm.new_pyobj(", ident.as_str(), "(vm))"));
            },
            ItemKind::Class => {
                code.push(source3("", ident.as_str(), "::make_class(&vm.ctx)"));
                assert(""@ + ident@ =~= ident@) by {
                    reveal_strlit("");
                    assert(""@.len() == 0);
                }
            },
        }
        let ghost valued = fragment_views(code@);
        assert(valued =~= opened + value_code(self@.item, module_name@));
        code.push(source(").unwrap();\n"));
        let ghost closing = seq![FragmentView::Source(").unwrap();\n"@)];
        assert(fragment_views(code@) =~= valued + closing);
        assert(guarded == before + guard_lines(self@.cfgs));
        assert(fragment_views(code@) =~= before + registration(self@, module_name@));
    }
}

impl Module {
    /// The registration statements of all registered items, in the order in
    /// which they were inserted.
    pub fn emit(&self, module_name: &str) -> (code: Vec<Fragment>)
        ensures
            fragment_views(code@) == registrations(self@, module_name@),
    {
        let mut code: Vec<Fragment> = Vec::new();
        let mut i: usize = 0;
        assert(self@.take(0) =~= Seq::<Binding>::empty());
        assert(fragment_views(code@) =~= Seq::<FragmentView>::empty());
        while i < self.len()
            invariant
                i <= self@.len(),
                fragment_views(code@) == registrations(self@.take(i as int), module_name@),
            decreases self@.len() - i,
        {
            proof {
                assert(self@.take(i + 1).drop_last() =~= self@.take(i as int));
            }
            self.get(i).emit(module_name, &mut code);
            i = i + 1;
        }
        assert(self@.take(i as int) =~= self@);
        code
    }
}

/// The source text of code in which the `i`-th fragment, where it is a
/// string literal, is spelled `literals[i]`.
pub open spec fn spelled(code: Seq<FragmentView>, literals: Seq<Seq<char>>) -> Seq<char>
    decreases code.len(),
{
    if code.len() == 0 {
        Seq::empty()
    } else {
        spelled(code.drop_last(), literals.drop_last()) + match code.last() {
            FragmentView::Source(text) => text,
            FragmentView::Str(_) => literals.last(),
        }
    }
}

/// Spells a string literal: the source text of a literal whose value is
/// `value`, as `proc_macro2::Literal::string` makes it and its `Display`
/// prints it. The spelling is left to that crate; nothing is claimed of it
/// here.
#[verifier::external_body]
fn string_literal(value: &str) -> (text: String) {
    proc_macro2::Literal::string(value).to_string()
}

/// The source text of `code`, with `literals[i]` for the `i`-th fragment
/// where that is a string literal.
pub fn render_with(code: &Vec<Fragment>, literals: &Vec<String>) -> (text: String)
    requires
        literals.len() == code.len(),
    ensures
        text@ == spelled(fragment_views(code@), texts(literals@)),
{
    let mut text = String::new();
    let mut i: usize = 0;
    let ghost views = fragment_views(code@);
    let ghost spellings = texts(literals@);
    while i < code.len()
        invariant
            i <= code.len(),
            literals.len() == code.len(),
            views == fragment_views(code@),
            spellings == texts(literals@),
            text@ == spelled(views.take(i as int), spellings.take(i as int)),
        decreases code.len() - i,
    {
        proof {
            assert(views.take(i + 1).drop_last() =~= views.take(i as int));
            assert(spellings.take(i + 1).drop_last() =~= spellings.take(i as int));
        }
        match &code[i] {
            Fragment::Source(source) => text.append(source.as_str()),
            Fragment::Str(_) => text.append(literals[i].as_str()),
        }
        i = i + 1;
    }
    proof {
        assert(views.take(i as int) =~= views);
        assert(spellings.take(i as int) =~= spellings);
    }
    text
}

/// The source text of `code`. Each string literal is spelled as
/// `proc_macro2::Literal::string` spells its value; source text stands as it
/// is.
pub fn render(code: &Vec<Fragment>) -> (text: String)
    ensures
        exists|literals: Seq<Seq<char>>|
            literals.len() == code@.len() && text@ == #[trigger] spelled(
                fragment_views(code@),
                literals,
            ),
{
    let mut literals: Vec<String> = Vec::new();
    let mut i: usize = 0;
    while i < code.len()
        invariant
            i <= code.len(),
            literals.len() == i,
        decreases code.len() - i,
    {
        let spelling = match &code[i] {
            Fragment::Source(_) => String::new(),
            Fragment::Str(value) => string_literal(value.as_str()),
        };
        literals.push(spelling);
        i = i + 1;
    }
    let text = render_with(code, &literals);
    assert(texts(literals@).len() == code@.len());
    text
}

} // verus!
