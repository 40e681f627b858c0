//! Visibility qualifiers and the keyword each one becomes inside the
//! generated module.

use vstd::prelude::*;

verus! {

/// How widely a declared item can be seen.
#[derive(Clone, Copy, Debug, PartialEq, Eq, Structural)]
pub enum Visibility {
    /// No qualifier: private to the declaring module.
    Inherited,
    /// `pub`.
    Public,
    /// Any path-restricted form, such as `pub(crate)` or `pub(in some::path)`.
    Restricted,
}

/// The keyword that stands for `vis` once the item lives one module deeper.
///
/// A restricted path has no counterpart there, so it becomes a marker that
/// the author replaces by hand.
pub open spec fn vis_text(vis: Visibility) -> Seq<char> {
    match vis {
        Visibility::Inherited => "pub(super)"@,
        Visibility::Public => "pub"@,
        Visibility::Restricted => "/* TODO_VISIBILITY */"@,
    }
}

/// Convert a visibility, as items are now defined inside a module.
pub fn convert_vis(vis: &Visibility) -> (keyword: &'static str)
    ensures
        keyword@ == vis_text(*vis),
{
    match vis {
        Visibility::Inherited => "pub(super)",
        Visibility::Public => "pub",
        Visibility::Restricted => "/* TODO_VISIBILITY */",
    }
}

} // verus!
