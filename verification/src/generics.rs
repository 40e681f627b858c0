//! The generic parameter lists of the generated module.

use vstd::prelude::*;

verus! {

/// The three ways the module's generic parameters are written.
#[derive(Clone, Copy, Debug)]
pub struct GenericLists {
    /// On the configuration trait: only the instance parameter, if any.
    pub config_gen: &'static str,
    /// On implementation headers: every parameter with its bound.
    pub impl_gen: &'static str,
    /// Where the parameters are merely named.
    pub use_gen: &'static str,
}

/// What a [`GenericLists`] spells.
pub ghost struct GenericListsView {
    pub config_gen: Seq<char>,
    pub impl_gen: Seq<char>,
    pub use_gen: Seq<char>,
}

impl View for GenericLists {
    type V = GenericListsView;

    open spec fn view(&self) -> GenericListsView {
        GenericListsView {
            config_gen: self.config_gen@,
            impl_gen: self.impl_gen@,
            use_gen: self.use_gen@,
        }
    }
}

/// The lists of a module: with the instance parameter `I` beside the type
/// parameter `T` when the module is instantiable, with `T` alone otherwise.
pub open spec fn module_generics(instantiable: bool) -> GenericListsView {
    if instantiable {
        GenericListsView {
            config_gen: "<I: 'static>"@,
            impl_gen: "<T: Config<I>, I: 'static>"@,
            use_gen: "<T, I>"@,
        }
    } else {
        GenericListsView {
            config_gen: Seq::empty(),
            impl_gen: "<T: Config>"@,
            use_gen: "<T>"@,
        }
    }
}

impl GenericLists {
    /// Derives the three lists of a module.
    pub fn for_module(instantiable: bool) -> (lists: GenericLists)
        ensures
            lists@ == module_generics(instantiable),
    {
        if instantiable {
            GenericLists {
                config_gen: "<I: 'static>",
                impl_gen: "<T: Config<I>, I: 'static>",
                use_gen: "<T, I>",
            }
        } else {
            proof {
                reveal_strlit("");
                assert(""@ =~= Seq::<char>::empty());
            }
            GenericLists { config_gen: "", impl_gen: "<T: Config>", use_gen: "<T>" }
        }
    }
}

} // verus!
