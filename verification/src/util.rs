//! Argument validation and name resolution for binding annotations.

use crate::diagnostic::{Diagnostic, DiagnosticView, ErrorKind};
use crate::syntax::{ident_view, Lit, NestedMeta, Span};
use vstd::prelude::*;
use vstd::string::StringExecFns;

verus! {

/// The argument sets that annotations declare.
#[derive(Debug, Clone, Copy, PartialEq, Eq, Hash, Structural)]
pub enum NameSet {
    /// `name`.
    Simple,
    /// `module` and `name`.
    StructSequence,
}

impl NameSet {
    /// Whether the set accepts an argument with the key `key`.
    pub open spec fn allows(self, key: Seq<char>) -> bool {
        match self {
            NameSet::Simple => key == "name"@,
            NameSet::StructSequence => key == "module"@ || key == "name"@,
        }
    }

    /// The keys of the set as they are listed in a message.
    pub open spec fn listing(self) -> Seq<char> {
        match self {
            NameSet::Simple => "name"@,
            NameSet::StructSequence => "module, name"@,
        }
    }

    /// Whether the set accepts an argument with the key `key`.
    pub fn contains(self, key: &String) -> (res: bool)
        ensures
            res == self.allows(key@),
    {
        let name = "name".to_owned();
        match self {
            NameSet::Simple => *key == name,
            NameSet::StructSequence => {
                let module = "module".to_owned();
                *key == module || *key == name
            },
        }
    }

    /// The keys of the set as they are listed in a message.
    pub fn join(self) -> (res: &'static str)
        ensures
            res@ == self.listing(),
    {
        match self {
            NameSet::Simple => "name",
            NameSet::StructSequence => "module, name",
        }
    }
}

impl NestedMeta {
    /// The key under which an argument is validated. Bare words and pairs
    /// have one where a single identifier names them; nested lists and bare
    /// literals have none.
    pub open spec fn key(self) -> Option<Seq<char>> {
        match self {
            NestedMeta::Path { ident } => ident_view(ident),
            NestedMeta::NameValue { ident, .. } => ident_view(ident),
            _ => None,
        }
    }

    /// The identifier that is the argument's key, if it has one.
    pub fn key_ident(&self) -> (res: Option<&String>)
        ensures
            match res {
                Some(ident) => self.key() == Some(ident@),
                None => self.key() is None,
            },
    {
        match self {
            NestedMeta::Path { ident } => ident.as_ref(),
            NestedMeta::NameValue { ident, .. } => ident.as_ref(),
            _ => None,
        }
    }
}

/// Whether one of `nested` has the key `key`.
pub open spec fn has_arg(nested: Seq<NestedMeta>, key: Seq<char>) -> bool {
    exists|i: int| 0 <= i < nested.len() && (#[trigger] nested[i]).key() == Some(key)
}

/// The wording for an argument whose key the set does not accept.
pub open spec fn unknown_message(parent: Seq<char>, key: Seq<char>, names: NameSet) -> Seq<char> {
    "#["@ + parent + "("@ + key + ")] is not one of allowed attributes "@ + names.listing()
}

/// The wording for an argument whose key was given before.
pub open spec fn repeated_message(parent: Seq<char>, key: Seq<char>) -> Seq<char> {
    "#["@ + parent + "] must have only one '"@ + key + "'"@
}

/// The wording for a `name` whose value is not a string.
pub open spec fn not_string_message(parent: Seq<char>) -> Seq<char> {
    "#["@ + parent + "(name = ...)] must be a string"@
}

/// The wording for a `name` without a value.
pub open spec fn missing_value_message(parent: Seq<char>) -> Seq<char> {
    "#["@ + parent + "(name = ...)] is expected"@
}

/// The argument error with the wording `message` at `span`.
pub open spec fn argument_error(message: Seq<char>, span: Span) -> DiagnosticView {
    DiagnosticView { span, kind: ErrorKind::Argument, message }
}

/// What the `index`-th argument raises, given the arguments before it: an
/// argument without a key raises nothing; a key that the set does not accept
/// is unknown; an accepted key that an earlier argument has is repeated.
pub open spec fn arg_error(
    parent: Seq<char>,
    names: NameSet,
    nested: Seq<NestedMeta>,
    index: int,
) -> Option<Seq<char>> {
    match nested[index].key() {
        None => None,
        Some(key) => if !names.allows(key) {
            Some(unknown_message(parent, key, names))
        } else if has_arg(nested.take(index), key) {
            Some(repeated_message(parent, key))
        } else {
            None
        },
    }
}

/// The wording of what the first offending argument raises, or `None` where
/// the set accepts the whole list.
pub open spec fn first_arg_error(parent: Seq<char>, names: NameSet, nested: Seq<NestedMeta>) -> Option<
    Seq<char>,
>
    decreases nested.len(),
{
    if nested.len() == 0 {
        None
    } else {
        match first_arg_error(parent, names, nested.drop_last()) {
            Some(message) => Some(message),
            None => arg_error(parent, names, nested, nested.len() - 1),
        }
    }
}

/// The first argument with the key `name`.
pub open spec fn name_arg(nested: Seq<NestedMeta>) -> Option<NestedMeta>
    decreases nested.len(),
{
    if nested.len() == 0 {
        None
    } else if nested[0].key() == Some("name"@) {
        Some(nested[0])
    } else {
        name_arg(nested.drop_first())
    }
}

/// The external name that an explicit override or, without one, the
/// declared identifier gives.
pub open spec fn resolved(ident: Seq<char>, explicit: Option<Seq<char>>) -> Seq<char> {
    match explicit {
        Some(name) => name,
        None => ident,
    }
}

/// The name that a validated argument list gives to the declaration `ident`:
/// the string value of its `name` argument, or `ident` where it has none.
/// A `name` that is not a pair with a string value is an error, given by its
/// wording.
pub open spec fn simple_name_of(parent: Seq<char>, ident: Seq<char>, nested: Seq<NestedMeta>) -> Result<
    Seq<char>,
    Seq<char>,
> {
    match name_arg(nested) {
        Some(NestedMeta::NameValue { lit: Lit::Str(value), .. }) => Ok(
            resolved(ident, Some(value@)),
        ),
        Some(NestedMeta::NameValue { lit: Lit::Other, .. }) => Err(not_string_message(parent)),
        Some(_) => Err(missing_value_message(parent)),
        None => Ok(resolved(ident, None)),
    }
}

/// The external name of the declaration `ident` under the annotation
/// `parent` with the arguments `nested`, validated against `names`; or the
/// argument error at `span` that the list raises.
pub open spec fn external_name(
    parent: Seq<char>,
    ident: Seq<char>,
    nested: Seq<NestedMeta>,
    names: NameSet,
    span: Span,
) -> Result<Seq<char>, DiagnosticView> {
    match first_arg_error(parent, names, nested) {
        Some(message) => Err(argument_error(message, span)),
        None => match simple_name_of(parent, ident, nested) {
            Ok(name) => Ok(name),
            Err(message) => Err(argument_error(message, span)),
        },
    }
}

/// The external name: the explicit override where one is given, else the
/// declared identifier.
pub fn resolve_external_name(ident: &str, explicit: Option<String>) -> (res: String)
    ensures
        res@ == resolved(ident@, ident_view(explicit)),
{
    match explicit {
        Some(name) => name,
        None => ident.to_owned(),
    }
}

/// An argument list that its annotation's argument set accepts.
pub struct ItemMeta<'a> {
    ident: &'a str,
    parent_type: &'a str,
    span: Span,
    nested: &'a Vec<NestedMeta>,
}

fn unknown_argument(parent: &str, key: &str, names: NameSet, span: Span) -> (res: Diagnostic)
    ensures
        res@ == argument_error(unknown_message(parent@, key@, names), span),
{
    let mut message = String::from_str("#[");
    message.append(parent);
    message.append("(");
    message.append(key);
    message.append(")] is not one of allowed attributes ");
    message.append(names.join());
    Diagnostic { span, kind: ErrorKind::Argument, message }
}

fn repeated_argument(parent: &str, key: &str, span: Span) -> (res: Diagnostic)
    ensures
        res@ == argument_error(repeated_message(parent@, key@), span),
{
    let mut message = String::from_str("#[");
    message.append(parent);
    message.append("] must have only one '");
    message.append(key);
    message.append("'");
    Diagnostic { span, kind: ErrorKind::Argument, message }
}

fn name_not_string(parent: &str, span: Span) -> (res: Diagnostic)
    ensures
        res@ == argument_error(not_string_message(parent@), span),
{
    let mut message = String::from_str("#[");
    message.append(parent);
    message.append("(name = ...)] must be a string");
    Diagnostic { span, kind: ErrorKind::Argument, message }
}

fn name_without_value(parent: &str, span: Span) -> (res: Diagnostic)
    ensures
        res@ == argument_error(missing_value_message(parent@), span),
{
    let mut message = String::from_str("#[");
    message.append(parent);
    message.append("(name = ...)] is expected");
    Diagnostic { span, kind: ErrorKind::Argument, message }
}

/// Whether one of the first `end` arguments has the key `key`.
fn seen_before(nested: &Vec<NestedMeta>, end: usize, key: &String) -> (res: bool)
    requires
        end <= nested.len(),
    ensures
        res == has_arg(nested@.take(end as int), key@),
{
    let mut i: usize = 0;
    while i < end
        invariant
            i <= end <= nested.len(),
            !has_arg(nested@.take(i as int), key@),
        decreases end - i,
    {
        match nested[i].key_ident() {
            Some(ident) => {
                if *ident == *key {
                    assert(nested@.take(end as int)[i as int].key() == Some(key@));
                    return true;
                }
            },
            None => {},
        }
        assert forall|k: int| 0 <= k < i + 1 implies (#[trigger] nested@.take(i + 1)[k]).key()
            != Some(key@) by {
            if k < i {
                assert(nested@.take(i as int)[k] == nested@.take(i + 1)[k]);
            }
        }
        i = i + 1;
    }
    false
}

impl<'a> ItemMeta<'a> {
    /// The annotation's name.
    pub closed spec fn parent(self) -> Seq<char> {
        self.parent_type@
    }

    /// The identifier of the annotated declaration.
    pub closed spec fn declared(self) -> Seq<char> {
        self.ident@
    }

    /// Where the annotation stands.
    pub closed spec fn site(self) -> Span {
        self.span
    }

    /// The arguments.
    pub closed spec fn args(self) -> Seq<NestedMeta> {
        self.nested@
    }

    /// Validates the arguments `nested` of the annotation `parent_type` on
    /// the declaration `ident` against the argument set `names`. The first
    /// argument that the set does not accept, or that repeats a key, gives the
    /// error.
    pub fn from_nested_meta(
        parent_type: &'a str,
        ident: &'a str,
        span: Span,
        nested: &'a Vec<NestedMeta>,
        names: NameSet,
    ) -> (res: Result<ItemMeta<'a>, Diagnostic>)
        ensures
            match first_arg_error(parent_type@, names, nested@) {
                Some(message) => res is Err && res->Err_0@ == argument_error(message, span),
                None => res is Ok && res->Ok_0.parent() == parent_type@ && res->Ok_0.declared()
                    == ident@ && res->Ok_0.site() == span && res->Ok_0.args() == nested@,
            },
    {
        let mut i: usize = 0;
        while i < nested.len()
            invariant
                i <= nested.len(),
                first_arg_error(parent_type@, names, nested@.take(i as int)) is None,
            decreases nested.len() - i,
        {
            proof {
                let next = nested@.take(i + 1);
                assert(next.drop_last() =~= nested@.take(i as int));
                assert(next.take(i as int) =~= nested@.take(i as int));
                assert(next[i as int] == nested@[i as int]);
            }
            match nested[i].key_ident() {
                Some(key) => {
                    if !names.contains(key) {
                        proof {
                            lemma_first_arg_error_extends(
                                parent_type@,
                                names,
                                nested@,
                                i as int + 1,
                            );
                        }
                        return Err(unknown_argument(parent_type, key.as_str(), names, span));
                    }
                    if seen_before(nested, i, key) {
                        proof {
                            lemma_first_arg_error_extends(
                                parent_type@,
                                names,
                                nested@,
                                i as int + 1,
                            );
                        }
                        return Err(repeated_argument(parent_type, key.as_str(), span));
                    }
                },
                None => {},
            }
            i = i + 1;
        }
        assert(nested@.take(i as int) =~= nested@);
        Ok(ItemMeta { ident, parent_type, span, nested })
    }

    /// The external name: the string value of the `name` argument, or the
    /// declared identifier where there is none.
    pub fn simple_name(&self) -> (res: Result<String, Diagnostic>)
        ensures
            match simple_name_of(self.parent(), self.declared(), self.args()) {
                Ok(name) => res is Ok && res->Ok_0@ == name,
                Err(message) => res is Err && res->Err_0@ == argument_error(message, self.site()),
            },
    {
        let name = "name".to_owned();
        let mut i: usize = 0;
        assert(self.nested@.skip(0) =~= self.nested@);
        while i < self.nested.len()
            invariant
                i <= self.nested.len(),
                name@ == "name"@,
                name_arg(self.nested@) == name_arg(self.nested@.skip(i as int)),
            decreases self.nested.len() - i,
        {
            proof {
                assert(self.nested@.skip(i as int).drop_first() =~= self.nested@.skip(i + 1));
            }
            let is_name = match self.nested[i].key_ident() {
                Some(key) => *key == name,
                None => false,
            };
            if is_name {
                return match &self.nested[i] {
                    NestedMeta::NameValue { lit: Lit::Str(value), .. } => Ok(
                        resolve_external_name(self.ident, Some(value.clone())),
                    ),
                    NestedMeta::NameValue { lit: Lit::Other, .. } => Err(
                        name_not_string(self.parent_type, self.span),
                    ),
                    _ => Err(name_without_value(self.parent_type, self.span)),
                };
            }
            i = i + 1;
        }
        Ok(resolve_external_name(self.ident, None))
    }
}

/// Once a prefix of the arguments raises an error, the whole list raises the
/// same one.
pub proof fn lemma_first_arg_error_extends(
    parent: Seq<char>,
    names: NameSet,
    nested: Seq<NestedMeta>,
    end: int,
)
    requires
        0 <= end <= nested.len(),
        first_arg_error(parent, names, nested.take(end)) is Some,
    ensures
        first_arg_error(parent, names, nested) == first_arg_error(parent, names, nested.take(end)),
    decreases nested.len() - end,
{
    if end < nested.len() {
        let next = nested.take(end + 1);
        assert(next.drop_last() =~= nested.take(end));
        lemma_first_arg_error_extends(parent, names, nested, end + 1);
    } else {
        assert(nested.take(end) =~= nested);
    }
}

/// The external name of the declaration `ident` that carries the annotation
/// `attr_name` with the arguments `attr`: the explicit `name`, else `ident`.
pub fn def_to_name(ident: &str, attr_name: &str, attr: Vec<NestedMeta>, span: Span) -> (res: Result<
    String,
    Diagnostic,
>)
    ensures
        match external_name(attr_name@, ident@, attr@, NameSet::Simple, span) {
            Ok(name) => res is Ok && res->Ok_0@ == name,
            Err(diagnostic) => res is Err && res->Err_0@ == diagnostic,
        },
{
    match ItemMeta::from_nested_meta(attr_name, ident, span, &attr, NameSet::Simple) {
        Ok(meta) => meta.simple_name(),
        Err(diagnostic) => Err(diagnostic),
    }
}

} // verus!
