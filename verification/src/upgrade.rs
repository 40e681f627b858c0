//! From a definition to what is written out.

use vstd::prelude::*;
use vstd::string::*;
use crate::generics::GenericLists;
use crate::genesis::{
    derivation_view, genesis_sections, render_genesis, GenesisConfig, GenesisConfigView,
};
use crate::storage::{lemma_blocks_follow_lines, render_storages, storages_text};
use crate::template::{
    assemble, sections_text, skeleton_text, template_text, ModuleDef, ModuleDefView, SECTION_OPEN,
};
use crate::text::texts;

verus! {

/// What a diagnostic line begins with.
pub const DIAGNOSTIC_PREFIX: &'static str = "Could not print upgrade due compile error: ";

/// What is to be written out.
#[derive(Clone, Debug, PartialEq, Eq)]
pub enum Emission {
    /// Nothing at all.
    Nothing,
    /// The finished template.
    Template(String),
    /// One line that says why there is no template.
    Diagnostic(String),
}

/// An [`Emission`] as the text it holds.
pub ghost enum EmissionView {
    Nothing,
    Template(Seq<char>),
    Diagnostic(Seq<char>),
}

impl View for Emission {
    type V = EmissionView;

    open spec fn view(&self) -> EmissionView {
        match *self {
            Emission::Nothing => EmissionView::Nothing,
            Emission::Template(text) => EmissionView::Template(text@),
            Emission::Diagnostic(line) => EmissionView::Diagnostic(line@),
        }
    }
}

/// The template for `def`, with `blocks` as the code to run at genesis and
/// `derived` as the outcome of deriving the genesis fields; or, where the
/// genesis sections cannot be made, the reason.
pub open spec fn upgrade_text(
    def: ModuleDefView,
    blocks: Seq<Seq<char>>,
    derived: Result<GenesisConfigView, Seq<char>>,
) -> Result<Seq<char>, Seq<char>> {
    match genesis_sections(def.generics(), blocks, derived) {
        Ok(sections) => Ok(
            template_text(
                def,
                def.generics(),
                storages_text(def.storage_lines, def.generics().use_gen),
                sections.genesis_config,
                sections.genesis_build,
            ),
        ),
        Err(detail) => Err(detail),
    }
}

/// The line that reports a failure with the given detail.
pub open spec fn diagnostic_text(detail: Seq<char>) -> Seq<char> {
    DIAGNOSTIC_PREFIX@ + detail
}

/// What is written out: nothing unless `enabled`; else the template, or the
/// diagnostic line if there can be none.
pub open spec fn emission(
    enabled: bool,
    def: ModuleDefView,
    blocks: Seq<Seq<char>>,
    derived: Result<GenesisConfigView, Seq<char>>,
) -> EmissionView {
    if !enabled {
        EmissionView::Nothing
    } else {
        match upgrade_text(def, blocks, derived) {
            Ok(text) => EmissionView::Template(text),
            Err(detail) => EmissionView::Diagnostic(diagnostic_text(detail)),
        }
    }
}

/// Switched off, nothing is written, whatever the definition.
pub proof fn lemma_switched_off_writes_nothing(
    def: ModuleDefView,
    blocks: Seq<Seq<char>>,
    derived: Result<GenesisConfigView, Seq<char>>,
)
    ensures
        emission(false, def, blocks, derived) == EmissionView::Nothing,
{
}

/// A module without storage lines and without code to run at genesis gives
/// the skeleton alone: the storage section and both genesis sections are
/// there, in their places, and empty.
pub proof fn lemma_empty_module_gives_skeleton(
    def: ModuleDefView,
    blocks: Seq<Seq<char>>,
    derived: Result<GenesisConfigView, Seq<char>>,
)
    requires
        def.storage_lines.len() == 0,
        blocks.len() == 0,
    ensures
        upgrade_text(def, blocks, derived) == Ok::<Seq<char>, Seq<char>>(
            skeleton_text(def, def.generics()) + sections_text(
                Seq::empty(),
                Seq::empty(),
                Seq::empty(),
            ),
        ),
        sections_text(Seq::empty(), Seq::empty(), Seq::empty()) == "\n\n\t\n\n\t\n\n\t\n}"@,
{
    reveal_strlit("\n\n\t");
    reveal_strlit("\n}");
    reveal_strlit("\n\n\t\n\n\t\n\n\t\n}");
    assert(sections_text(Seq::empty(), Seq::empty(), Seq::empty())
        =~= "\n\n\t\n\n\t\n\n\t\n}"@);
}

/// Without code to run at genesis there is a template, and it holds neither
/// a genesis-config nor a genesis-build section: after the storage section
/// come the two empty places and the end of the module, and nothing else.
/// Whether the genesis fields could be derived makes no difference.
pub proof fn lemma_no_blocks_no_genesis(
    def: ModuleDefView,
    blocks: Seq<Seq<char>>,
    derived: Result<GenesisConfigView, Seq<char>>,
)
    requires
        blocks.len() == 0,
    ensures
        genesis_sections(def.generics(), blocks, derived) matches Ok(sections)
            && sections.genesis_config.len() == 0 && sections.genesis_build.len() == 0,
        upgrade_text(def, blocks, derived) == Ok::<Seq<char>, Seq<char>>(
            skeleton_text(def, def.generics()) + SECTION_OPEN@ + storages_text(
                def.storage_lines,
                def.generics().use_gen,
            ) + "\n\n\t\n\n\t\n}"@,
        ),
{
    reveal_strlit("\n\n\t");
    reveal_strlit("\n}");
    reveal_strlit("\n\n\t\n\n\t\n}");
    let storages = storages_text(def.storage_lines, def.generics().use_gen);
    assert(sections_text(storages, Seq::empty(), Seq::empty()) =~= SECTION_OPEN@ + storages
        + "\n\n\t\n\n\t\n}"@);
    assert(skeleton_text(def, def.generics()) + (SECTION_OPEN@ + storages
        + "\n\n\t\n\n\t\n}"@) =~= skeleton_text(def, def.generics()) + SECTION_OPEN@
        + storages + "\n\n\t\n\n\t\n}"@);
}

/// With code to run at genesis and a definition that gives no genesis
/// fields there is no template, not even a part of one: what is written is
/// the one line that gives the reason.
pub proof fn lemma_rejected_definition_gives_diagnostic(
    def: ModuleDefView,
    blocks: Seq<Seq<char>>,
    detail: Seq<char>,
)
    requires
        blocks.len() > 0,
    ensures
        upgrade_text(def, blocks, Err(detail)) == Err::<Seq<char>, Seq<char>>(detail),
        emission(true, def, blocks, Err(detail)) == EmissionView::Diagnostic(
            DIAGNOSTIC_PREFIX@ + detail,
        ),
{
}

/// In a template the block of every storage line stands whole, and the
/// blocks stand in the order of the lines: the storage section is the
/// section of the lines before line `i`, then the block of line `i`, then
/// the section of the lines after it.
pub proof fn lemma_line_stands_in_template(
    def: ModuleDefView,
    blocks: Seq<Seq<char>>,
    derived: Result<GenesisConfigView, Seq<char>>,
    i: int,
)
    requires
        0 <= i < def.storage_lines.len(),
        upgrade_text(def, blocks, derived) is Ok,
    ensures
        ({
            let use_gen = def.generics().use_gen;
            let sections = genesis_sections(def.generics(), blocks, derived)->Ok_0;
            upgrade_text(def, blocks, derived)->Ok_0 == template_text(
                def,
                def.generics(),
                storages_text(def.storage_lines.take(i), use_gen) + def.storage_lines[i].text(
                    use_gen,
                ) + storages_text(def.storage_lines.skip(i + 1), use_gen),
                sections.genesis_config,
                sections.genesis_build,
            )
        }),
{
    lemma_blocks_follow_lines(def.storage_lines, def.generics().use_gen, i);
}

/// Renders the whole template, or returns why the genesis fields could not
/// be derived. On failure no part of a template is returned.
pub fn render_upgrade(
    def: &ModuleDef,
    blocks: &Vec<String>,
    derived: &Result<GenesisConfig, String>,
) -> (rendered: Result<String, String>)
    ensures
        match upgrade_text(def@, texts(blocks@), derivation_view(*derived)) {
            Ok(text) => rendered is Ok && rendered->Ok_0@ == text,
            Err(detail) => rendered is Err && rendered->Err_0@ == detail,
        },
        rendered is Ok <==> blocks@.len() == 0 || *derived is Ok,
        rendered is Err ==> *derived is Err && rendered->Err_0@ == derived->Err_0@,
{
    let lists = GenericLists::for_module(def.instantiable);
    match render_genesis(&lists, blocks, derived) {
        Ok(sections) => {
            let storages = render_storages(&def.storage_lines, lists.use_gen);
            Ok(
                assemble(
                    def,
                    &lists,
                    storages.as_str(),
                    sections.genesis_config.as_str(),
                    sections.genesis_build.as_str(),
                ),
            )
        },
        Err(detail) => Err(detail),
    }
}

/// Renders the line that reports a failure.
pub fn render_diagnostic(detail: &str) -> (line: String)
    ensures
        line@ == diagnostic_text(detail@),
{
    let mut line = String::from_str(DIAGNOSTIC_PREFIX);
    line.append(detail);
    line
}

/// Decides what to write for an incomplete upgrade of `def` from the
/// `decl_storage` macro to the pallet attribute.
///
/// `enabled` is the switch that asks for the template; without it nothing
/// is written. `blocks` is the code to run at genesis, one piece each, and
/// `derived` the genesis fields, or the reason why the definition gives
/// none.
pub fn maybe_print_pallet_upgrade(
    enabled: bool,
    def: &ModuleDef,
    blocks: &Vec<String>,
    derived: &Result<GenesisConfig, String>,
) -> (written: Emission)
    ensures
        written@ == emission(enabled, def@, texts(blocks@), derivation_view(*derived)),
        written is Nothing <==> !enabled,
        written is Template <==> enabled && (blocks@.len() == 0 || *derived is Ok),
        written is Diagnostic <==> enabled && blocks@.len() > 0 && *derived is Err,
{
    if !enabled {
        return Emission::Nothing;
    }
    match render_upgrade(def, blocks, derived) {
        Ok(text) => Emission::Template(text),
        Err(detail) => Emission::Diagnostic(render_diagnostic(detail.as_str())),
    }
}

} // verus!
