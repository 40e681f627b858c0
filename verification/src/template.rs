//! The module around the storage and genesis sections.

use vstd::prelude::*;
use vstd::string::*;
use crate::generics::{module_generics, GenericLists, GenericListsView};
use crate::storage::{lines_view, StorageLine, StorageLineView};
use crate::visibility::{convert_vis, vis_text, Visibility};

verus! {

/// Opens the template, up to the name of the module it is for.
pub const HEADER_OPEN: &'static str = "\n// Template for pallet upgrade for ";

/// The start of the generated module, up to its first section.
pub const HEADER_CLOSE: &'static str =
    "\n\npub use pallet::*;\n\n#[pallet]\npub mod pallet {\n\tpub use frame_support::pallet_prelude::*;\n\tpub use frame_system::pallet_prelude::*;\n\tuse super::*;\n\t";

/// Opens the configuration trait.
pub const CONFIG_TRAIT_OPEN: &'static str = "\n\t#[pallet::config]\n\tpub trait Config";

/// The configuration trait after its generics: left for the author to fill.
pub const CONFIG_TRAIT_CLOSE: &'static str =
    ": frame_system::Config\n\t\t// TODO_MAYBE_ADDITIONAL_BOUNDS_AND_WHERE_CLAUSE\n\t{\n\t\t// TODO_ASSOCIATED_TYPE_AND_CONSTANTS\n\t}";

/// Opens the marker type of the module, up to the visibility of its store.
pub const PALLET_OPEN: &'static str = "\n\n\t#[pallet::pallet]\n\t#[generate_store(";

/// The marker type of the module after the visibility of its store.
pub const PALLET_CLOSE: &'static str = " trait Store)]\n\tpub struct Pallet(PhantomData<T>);";

/// Opens the implementation that holds the lifecycle hooks.
pub const INTERFACE_OPEN: &'static str = "\n\n\t#[pallet::interface]\n\timpl";

/// Stands between the generics of the hooks' implementation and the type.
pub const INTERFACE_FOR: &'static str = " Interface for Pallet";

/// The lifecycle hooks: each one left for the author to move over.
pub const INTERFACE_CLOSE: &'static str =
    "\n\t\t// TODO_MAYBE_WHERE_CLAUSE\n\t{\n\t\t// TODO_ON_FINALIZE\n\t\t// TODO_ON_INITIALIZE\n\t\t// TODO_ON_RUNTIME_UPGRADE\n\t\t// TODO_INTEGRITY_TEST\n\t\t// TODO_OFFCHAIN_WORKER\n\t}";

/// Opens the implementation that holds the dispatchable calls.
pub const CALL_OPEN: &'static str = "\n\n\t#[pallet::call]\n\timpl";

/// Stands between the generics of the calls' implementation and the type.
pub const CALL_FOR: &'static str = " Pallet";

/// The dispatchable calls: left for the author to move over.
pub const CALL_CLOSE: &'static str =
    "\n\t\t// TODO_MAYBE_WHERE_CLAUSE\n\t{\n\t\t// TODO_UPGRADE_DISPATCHABLES\n\t}";

/// What is not moved over at all: inherents, events, errors, origins and
/// the validation of unsigned calls, each with a marker in its place.
pub const MARKERS: &'static str =
    "\n\n\t#[pallet::inherent]\n\t// TODO_INHERENT\n\n\t#[pallet::event]\n\t// TODO_EVENT\n\n\t#[pallet::error]\n\t// TODO_ERROR\n\n\t#[pallet::origin]\n\t// TODO_ORIGIN\n\n\t#[pallet::validate_unsigned]\n\t// TODO_VALIDATE_UNSIGNED";

/// Stands before each of the three sections that are filled in.
pub const SECTION_OPEN: &'static str = "\n\n\t";

/// Closes the generated module.
pub const MODULE_CLOSE: &'static str = "\n}";

/// A module's storage definition, as `decl_storage` takes it.
#[derive(Clone, Debug, PartialEq, Eq)]
pub struct ModuleDef {
    /// The module's name.
    pub name: String,
    /// Whether the module can be instantiated more than once, and so has
    /// an instance parameter beside its type parameter.
    pub instantiable: bool,
    /// Who may see the module's store.
    pub visibility: Visibility,
    /// The declared storage items, in the order of their declaration.
    pub storage_lines: Vec<StorageLine>,
}

/// A [`ModuleDef`] as the texts it holds.
pub ghost struct ModuleDefView {
    pub name: Seq<char>,
    pub instantiable: bool,
    pub visibility: Visibility,
    pub storage_lines: Seq<StorageLineView>,
}

impl View for ModuleDef {
    type V = ModuleDefView;

    open spec fn view(&self) -> ModuleDefView {
        ModuleDefView {
            name: self.name@,
            instantiable: self.instantiable,
            visibility: self.visibility,
            storage_lines: lines_view(self.storage_lines@),
        }
    }
}

impl ModuleDefView {
    /// The generic parameter lists of the module.
    pub open spec fn generics(self) -> GenericListsView {
        module_generics(self.instantiable)
    }
}

/// The start of the template, which names the module.
pub open spec fn header_text(name: Seq<char>) -> Seq<char> {
    HEADER_OPEN@ + name + HEADER_CLOSE@
}

/// The configuration trait.
pub open spec fn config_trait_text(config_gen: Seq<char>) -> Seq<char> {
    CONFIG_TRAIT_OPEN@ + config_gen + CONFIG_TRAIT_CLOSE@
}

/// The marker type of the module, whose store is seen as `visibility` says.
pub open spec fn pallet_struct_text(visibility: Visibility) -> Seq<char> {
    PALLET_OPEN@ + vis_text(visibility) + PALLET_CLOSE@
}

/// The place of the lifecycle hooks.
pub open spec fn interface_text(impl_gen: Seq<char>, use_gen: Seq<char>) -> Seq<char> {
    INTERFACE_OPEN@ + impl_gen + INTERFACE_FOR@ + use_gen + INTERFACE_CLOSE@
}

/// The place of the dispatchable calls.
pub open spec fn call_text(impl_gen: Seq<char>, use_gen: Seq<char>) -> Seq<char> {
    CALL_OPEN@ + impl_gen + CALL_FOR@ + use_gen + CALL_CLOSE@
}

/// All of the template that depends neither on storage lines nor on
/// genesis: from its first line to the last marker, with the module's name,
/// the visibility of its store and the generic lists `lists` filled in.
pub open spec fn skeleton_text(def: ModuleDefView, lists: GenericListsView) -> Seq<char> {
    header_text(def.name) + config_trait_text(lists.config_gen) + pallet_struct_text(
        def.visibility,
    ) + interface_text(lists.impl_gen, lists.use_gen) + call_text(lists.impl_gen, lists.use_gen)
        + MARKERS@
}

/// The three sections that are filled in, each in its place whether or not
/// it is empty, and the end of the module.
pub open spec fn sections_text(
    storages: Seq<char>,
    genesis_config: Seq<char>,
    genesis_build: Seq<char>,
) -> Seq<char> {
    SECTION_OPEN@ + storages + SECTION_OPEN@ + genesis_config + SECTION_OPEN@ + genesis_build
        + MODULE_CLOSE@
}

/// The whole template: the skeleton, then the storage section, the
/// genesis-config section and the genesis-build section.
pub open spec fn template_text(
    def: ModuleDefView,
    lists: GenericListsView,
    storages: Seq<char>,
    genesis_config: Seq<char>,
    genesis_build: Seq<char>,
) -> Seq<char> {
    skeleton_text(def, lists) + sections_text(storages, genesis_config, genesis_build)
}

/// Renders the skeleton of the module.
pub fn render_skeleton(def: &ModuleDef, lists: &GenericLists) -> (out: String)
    ensures
        out@ == skeleton_text(def@, lists@),
{
    let mut header = String::from_str(HEADER_OPEN);
    header.append(def.name.as_str());
    header.append(HEADER_CLOSE);

    let mut config_trait = String::from_str(CONFIG_TRAIT_OPEN);
    config_trait.append(lists.config_gen);
    config_trait.append(CONFIG_TRAIT_CLOSE);

    let mut pallet_struct = String::from_str(PALLET_OPEN);
    pallet_struct.append(convert_vis(&def.visibility));
    pallet_struct.append(PALLET_CLOSE);

    let mut interface = String::from_str(INTERFACE_OPEN);
    interface.append(lists.impl_gen);
    interface.append(INTERFACE_FOR);
    interface.append(lists.use_gen);
    interface.append(INTERFACE_CLOSE);

    let mut call = String::from_str(CALL_OPEN);
    call.append(lists.impl_gen);
    call.append(CALL_FOR);
    call.append(lists.use_gen);
    call.append(CALL_CLOSE);

    let mut out = header;
    out.append(config_trait.as_str());
    out.append(pallet_struct.as_str());
    out.append(interface.as_str());
    out.append(call.as_str());
    out.append(MARKERS);
    out
}

/// Assembles the template around the three rendered sections.
pub fn assemble(
    def: &ModuleDef,
    lists: &GenericLists,
    storages: &str,
    genesis_config: &str,
    genesis_build: &str,
) -> (out: String)
    ensures
        out@ == template_text(def@, lists@, storages@, genesis_config@, genesis_build@),
{
    let mut sections = String::from_str(SECTION_OPEN);
    sections.append(storages);
    sections.append(SECTION_OPEN);
    sections.append(genesis_config);
    sections.append(SECTION_OPEN);
    sections.append(genesis_build);
    sections.append(MODULE_CLOSE);

    let mut out = render_skeleton(def, lists);
    out.append(sections.as_str());
    out
}

} // verus!
