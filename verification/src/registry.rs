//! The registry of extracted items: one binding per external name and guard
//! list.

use crate::diagnostic::{duplicate_error, Diagnostic, DiagnosticView};
use crate::item::{ModuleItem, ModuleItemView};
use crate::syntax::Span;
use vstd::prelude::*;

verus! {

/// The texts of a list of guards, in order.
pub open spec fn texts(list: Seq<String>) -> Seq<Seq<char>> {
    Seq::new(list.len(), |i: int| list[i]@)
}

/// What an operation that may fail with a diagnostic reports: `None` on
/// success, the diagnostic otherwise.
pub open spec fn failure<T>(outcome: Result<T, Diagnostic>) -> Option<DiagnosticView> {
    match outcome {
        Ok(_) => None,
        Err(diagnostic) => Some(diagnostic@),
    }
}

/// One registered binding: an item and the guards it was registered under.
/// Its key is the item's external name together with the guard list.
pub struct Binding {
    pub item: ModuleItemView,
    pub cfgs: Seq<Seq<char>>,
}

/// Whether `bindings` holds a binding with the key (`name`, `cfgs`).
pub open spec fn has_key(bindings: Seq<Binding>, name: Seq<char>, cfgs: Seq<Seq<char>>) -> bool {
    exists|i: int|
        0 <= i < bindings.len() && (#[trigger] bindings[i]).item.py_name == name && bindings[i].cfgs
            == cfgs
}

/// No two bindings share a key.
pub open spec fn distinct_keys(bindings: Seq<Binding>) -> bool {
    forall|i: int, j: int|
        0 <= i < j < bindings.len() ==> !((#[trigger] bindings[i]).item.py_name == (
        #[trigger] bindings[j]).item.py_name && bindings[i].cfgs == bindings[j].cfgs)
}

/// Insertion: a binding whose key is free goes to the end; one whose key is
/// taken leaves the bindings as they are and gives a duplicate-binding error
/// at `span` that names the external name already registered.
pub open spec fn add_binding(
    bindings: Seq<Binding>,
    item: ModuleItemView,
    cfgs: Seq<Seq<char>>,
    span: Span,
) -> (Seq<Binding>, Option<DiagnosticView>) {
    if has_key(bindings, item.py_name, cfgs) {
        (bindings, Some(duplicate_error(item.py_name, span)))
    } else {
        (bindings.push(Binding { item, cfgs }), None)
    }
}

/// A registered item with its guards.
#[derive(Debug, PartialEq, Eq, Hash)]
pub struct Entry {
    pub item: ModuleItem,
    pub cfgs: Vec<String>,
}

impl View for Entry {
    type V = Binding;

    open spec fn view(&self) -> Binding {
        Binding { item: self.item@, cfgs: texts(self.cfgs@) }
    }
}

/// The registry. Items stay in the order in which they were inserted.
#[derive(Debug, PartialEq, Eq)]
pub struct Module {
    items: Vec<Entry>,
}

impl View for Module {
    type V = Seq<Binding>;

    closed spec fn view(&self) -> Seq<Binding> {
        Seq::new(self.items@.len(), |i: int| self.items@[i]@)
    }
}

impl Default for Module {
    fn default() -> (res: Module)
        ensures
            res@ == Seq::<Binding>::empty(),
            res.wf(),
    {
        Module { items: Vec::new() }
    }
}

/// Whether two guard lists hold the same texts in the same order.
pub fn same_guards(left: &Vec<String>, right: &Vec<String>) -> (res: bool)
    ensures
        res == (texts(left@) == texts(right@)),
{
    if left.len() != right.len() {
        assert(texts(left@).len() != texts(right@).len());
        return false;
    }
    let mut i: usize = 0;
    while i < left.len()
        invariant
            left.len() == right.len(),
            i <= left.len(),
            forall|k: int| 0 <= k < i ==> left@[k]@ == right@[k]@,
        decreases left.len() - i,
    {
        if left[i] != right[i] {
            assert(texts(left@)[i as int] != texts(right@)[i as int]);
            return false;
        }
        i = i + 1;
    }
    assert(texts(left@) =~= texts(right@));
    true
}

impl Module {
    /// The registry's invariant: no two bindings share a key.
    pub open spec fn wf(&self) -> bool {
        distinct_keys(self@)
    }

    /// The number of registered items.
    pub fn len(&self) -> (res: usize)
        ensures
            res == self@.len(),
    {
        self.items.len()
    }

    /// The `index`-th registered item with its guards, in insertion order.
    pub fn get(&self, index: usize) -> (res: &Entry)
        requires
            index < self@.len(),
        ensures
            res@ == self@[index as int],
    {
        &self.items[index]
    }

    /// The place of the item that is registered under the key (`name`,
    /// `cfgs`), if there is one.
    fn position(&self, name: &String, cfgs: &Vec<String>) -> (res: Option<usize>)
        ensures
            match res {
                Some(index) => index < self@.len() && self@[index as int].item.py_name == name@
                    && self@[index as int].cfgs == texts(cfgs@),
                None => !has_key(self@, name@, texts(cfgs@)),
            },
    {
        let mut i: usize = 0;
        while i < self.items.len()
            invariant
                i <= self.items.len(),
                !has_key(self@.take(i as int), name@, texts(cfgs@)),
            decreases self.items.len() - i,
        {
            if self.items[i].item.name() == *name && same_guards(&self.items[i].cfgs, cfgs) {
                return Some(i);
            }
            assert forall|k: int| 0 <= k < i + 1 implies !((#[trigger] self@.take(i + 1)[k]).item.py_name
                == name@ && self@.take(i + 1)[k].cfgs == texts(cfgs@)) by {
                if k < i {
                    assert(self@.take(i as int)[k] == self@.take(i + 1)[k]);
                }
            }
            i = i + 1;
        }
        assert(self@.take(i as int) == self@);
        None
    }

    /// Whether an item is registered under the key (`name`, `cfgs`).
    pub fn contains(&self, name: &String, cfgs: &Vec<String>) -> (res: bool)
        ensures
            res == has_key(self@, name@, texts(cfgs@)),
    {
        self.position(name, cfgs).is_some()
    }

    /// Inserts `item` under the key made of its external name and `cfgs`.
    ///
    /// Where the key is taken, nothing is inserted, and the error at `span`
    /// names the external name that is already registered.
    pub fn add_item(&mut self, item: ModuleItem, cfgs: Vec<String>, span: Span) -> (res: Result<
        (),
        Diagnostic,
    >)
        requires
            old(self).wf(),
        ensures
            final(self).wf(),
            (final(self)@, failure(res)) == add_binding(old(self)@, item@, texts(cfgs@), span),
    {
        match self.position(&item.name(), &cfgs) {
            Some(index) => {
                let existing = self.items[index].item.name();
                Err(Diagnostic::duplicate(existing.as_str(), span))
            },
            None => {
                let ghost before = self@;
                self.items.push(Entry { item, cfgs });
                assert(self@ =~= before.push(Binding { item: item@, cfgs: texts(cfgs@) }));
                Ok(())
            },
        }
    }
}

} // verus!
