//! Binding extraction for annotated module bodies.
//!
//! A module body is a list of declarations (functions, structs, enums), each
//! carrying annotations. Four annotation names bind a declaration into a
//! runtime module: `pyfunction`, `pyattr`, `pyclass` and `pystruct_sequence`.
//! This crate classifies those annotations, keeps the resulting items in a
//! registry that accepts one binding per external name and guard list, strips
//! the consumed annotations from the declarations, and renders the
//! registration code.
//!
//! The crate works on its own plain model of declarations and annotations
//! (module [`syntax`]); whoever owns a real syntax tree converts to and from
//! that model.
//!
//! - [`syntax`]: declarations, annotations and their arguments.
//! - [`util`]: argument validation and the resolution of external names.
//! - [`extract`]: classification of annotations, extraction of one
//!   declaration.
//! - [`registry`]: the registry of extracted items.
//! - [`walk`]: the walk over a module body and the expansion of a module.
//! - [`emit`]: the registration code and its spelling as source text.
//! - [`diagnostic`]: the failures and their wording.
//! - [`laws`]: what holds of extraction and of the registry in general.

pub mod diagnostic;
pub mod emit;
pub mod extract;
pub mod item;
pub mod laws;
pub mod registry;
pub mod syntax;
pub mod util;
pub mod walk;

pub use diagnostic::{Diagnostic, DiagnosticView, ErrorKind};
pub use emit::{render, render_with, Fragment, FragmentView};
pub use extract::{meta_to_vec, Keyword};
pub use item::{ItemKind, ModuleItem, ModuleItemView};
pub use registry::{Binding, Entry, Module};
pub use syntax::{Attribute, Item, ItemIdent, ItemMod, ItemType, Lit, Meta, MetaForm, NestedMeta, Span};
pub use util::{def_to_name, resolve_external_name, ItemMeta, NameSet};
pub use walk::{all_legal, extract_module_items, impl_pymodule, Expansion};
