//! The genesis configuration: the aggregate of initial values, how a default
//! one is made, and what applying it runs.

use vstd::prelude::*;
use vstd::string::*;
use crate::generics::{GenericLists, GenericListsView};
use crate::text::{lemma_block_in_place, texts};

verus! {

/// Opens the declaration of the aggregate.
pub const CONFIG_OPEN: &'static str = "\n\t#[pallet::genesis_config]\n\tpub struct GenesisConfig";

/// Stands between the aggregate's generics and its fields.
pub const CONFIG_FIELDS_OPEN: &'static str = "\n\t\t// TODO_MAYBE_WHERE_CLAUSE\n\t{";

/// Closes the declaration of the aggregate.
pub const CONFIG_CLOSE: &'static str = "\n\t}";

/// Opens the implementation that makes a default aggregate.
pub const DEFAULT_OPEN: &'static str = "\n\n\t#[cfg(feature = \"std\")]\n\timpl";

/// Stands between the implementation's generics and the aggregate's name.
pub const DEFAULT_FOR: &'static str = " Default for GenesisConfig";

/// Stands between the aggregate's generics and the initializers.
pub const DEFAULT_FIELDS_OPEN: &'static str =
    "\n\t\t// TODO_MAYBE_WHERE_CLAUSE\n\t{\n\t\tfn default() -> Self {\n\t\t\tSelf {";

/// Closes the implementation that makes a default aggregate.
pub const DEFAULT_CLOSE: &'static str = "\n\t\t\t}\n\t\t}\n\t}";

/// Opens the implementation that applies the aggregate.
pub const BUILD_OPEN: &'static str = "\n\t#[pallet::genesis_build]\n\timpl";

/// Stands between the implementation's generics and those of the trait.
pub const BUILD_TRAIT: &'static str = " GenesisBuild";

/// Stands between the trait's generics and those of the aggregate.
pub const BUILD_FOR: &'static str = " GenesisConfig";

/// Stands between the aggregate's generics and the code to run.
pub const BUILD_BODY_OPEN: &'static str = "\n\t\t// TODO_MAYBE_WHERE_CLAUSE\n\t{\n\t\tfn build() {";

/// Closes the implementation that applies the aggregate.
pub const BUILD_CLOSE: &'static str = "\n\t\t}\n\t}";

/// One field of the aggregate.
#[derive(Clone, Debug, PartialEq, Eq)]
pub struct GenesisField {
    /// The field's name.
    pub name: String,
    /// The field's type.
    pub typ: String,
    /// Annotations to keep on the field, each without its `#[` and `]`.
    pub attrs: Vec<String>,
    /// The expression that a default aggregate gives the field.
    pub default: String,
}

/// A [`GenesisField`] as the texts it holds.
pub ghost struct GenesisFieldView {
    pub name: Seq<char>,
    pub typ: Seq<char>,
    pub attrs: Seq<Seq<char>>,
    pub default: Seq<char>,
}

impl View for GenesisField {
    type V = GenesisFieldView;

    open spec fn view(&self) -> GenesisFieldView {
        GenesisFieldView {
            name: self.name@,
            typ: self.typ@,
            attrs: texts(self.attrs@),
            default: self.default@,
        }
    }
}

/// The fields of the aggregate, as derived from a module's definition.
#[derive(Clone, Debug, PartialEq, Eq)]
pub struct GenesisConfig {
    /// Whether any field depends on the module's generic parameters.
    pub is_generic: bool,
    /// The fields, in the order in which they are declared.
    pub fields: Vec<GenesisField>,
}

/// A [`GenesisConfig`] as the texts it holds.
pub ghost struct GenesisConfigView {
    pub is_generic: bool,
    pub fields: Seq<GenesisFieldView>,
}

/// The fields of a vector as the texts they hold.
pub open spec fn fields_view(fields: Seq<GenesisField>) -> Seq<GenesisFieldView> {
    Seq::new(fields.len(), |i: int| fields[i]@)
}

impl View for GenesisConfig {
    type V = GenesisConfigView;

    open spec fn view(&self) -> GenesisConfigView {
        GenesisConfigView { is_generic: self.is_generic, fields: fields_view(self.fields@) }
    }
}

/// What deriving the fields came to: the fields, or why the definition was
/// rejected.
pub open spec fn derivation_view(derived: Result<GenesisConfig, String>) -> Result<
    GenesisConfigView,
    Seq<char>,
> {
    match derived {
        Ok(config) => Ok(config@),
        Err(detail) => Err(detail@),
    }
}

/// The generic parameter lists of the genesis sections.
#[derive(Clone, Copy, Debug)]
pub struct GenesisGenerics {
    /// On the declaration of the aggregate.
    pub decl_gen: &'static str,
    /// On the header of an implementation for the aggregate.
    pub impl_gen: &'static str,
    /// Where the aggregate is named.
    pub use_gen: &'static str,
}

/// What a [`GenesisGenerics`] spells.
pub ghost struct GenesisGenericsView {
    pub decl_gen: Seq<char>,
    pub impl_gen: Seq<char>,
    pub use_gen: Seq<char>,
}

impl View for GenesisGenerics {
    type V = GenesisGenericsView;

    open spec fn view(&self) -> GenesisGenericsView {
        GenesisGenericsView {
            decl_gen: self.decl_gen@,
            impl_gen: self.impl_gen@,
            use_gen: self.use_gen@,
        }
    }
}

/// The lists of an aggregate inside a module with the lists `module`: the
/// module's own if the aggregate is generic, three empty lists if it is not.
pub open spec fn genesis_generics(module: GenericListsView, is_generic: bool) -> GenesisGenericsView {
    if is_generic {
        GenesisGenericsView {
            decl_gen: module.impl_gen,
            impl_gen: module.impl_gen,
            use_gen: module.use_gen,
        }
    } else {
        GenesisGenericsView {
            decl_gen: Seq::empty(),
            impl_gen: Seq::empty(),
            use_gen: Seq::empty(),
        }
    }
}

/// One kept annotation, on a line of its own above the field.
pub open spec fn attr_text(attr: Seq<char>) -> Seq<char> {
    "#["@ + attr + "]\n\t\t"@
}

/// Each kept annotation on its line, in the order of the annotations.
pub open spec fn attr_lines(attrs: Seq<Seq<char>>) -> Seq<Seq<char>> {
    Seq::new(attrs.len(), |i: int| attr_text(attrs[i]))
}

impl GenesisFieldView {
    /// The kept annotations, in their order.
    pub open spec fn attrs_text(self) -> Seq<char> {
        attr_lines(self.attrs).flatten()
    }

    /// The field as the aggregate declares it.
    pub open spec fn declaration_text(self) -> Seq<char> {
        "\n\t\t"@ + self.attrs_text() + self.name + ": "@ + self.typ + ","@
    }

    /// The field as a default aggregate initialises it.
    pub open spec fn initializer_text(self) -> Seq<char> {
        "\n\t\t\t\t"@ + self.name + ": "@ + self.default + ","@
    }
}

/// The declaration of each field, in the order of the fields.
pub open spec fn declaration_blocks(fields: Seq<GenesisFieldView>) -> Seq<Seq<char>> {
    Seq::new(fields.len(), |i: int| fields[i].declaration_text())
}

/// The initializer of each field, in the order of the fields.
pub open spec fn initializer_blocks(fields: Seq<GenesisFieldView>) -> Seq<Seq<char>> {
    Seq::new(fields.len(), |i: int| fields[i].initializer_text())
}

/// The fields of the aggregate as it declares them.
pub open spec fn declarations_text(fields: Seq<GenesisFieldView>) -> Seq<char> {
    declaration_blocks(fields).flatten()
}

/// The fields of the aggregate as its default initialises them.
pub open spec fn initializers_text(fields: Seq<GenesisFieldView>) -> Seq<char> {
    initializer_blocks(fields).flatten()
}

/// One piece of code to run, on a line of its own.
pub open spec fn build_block_text(block: Seq<char>) -> Seq<char> {
    "\n\t\t\t\t\t"@ + block
}

/// Each piece of code on its line, in the order of the pieces.
pub open spec fn build_lines(blocks: Seq<Seq<char>>) -> Seq<Seq<char>> {
    Seq::new(blocks.len(), |i: int| build_block_text(blocks[i]))
}

/// The code that applying the aggregate runs: every piece, in order.
pub open spec fn build_blocks_text(blocks: Seq<Seq<char>>) -> Seq<char> {
    build_lines(blocks).flatten()
}

/// The declaration of the aggregate.
pub open spec fn aggregate_text(fields: Seq<GenesisFieldView>, decl_gen: Seq<char>) -> Seq<char> {
    CONFIG_OPEN@ + decl_gen + CONFIG_FIELDS_OPEN@ + declarations_text(fields) + CONFIG_CLOSE@
}

/// The implementation that makes a default aggregate.
pub open spec fn default_impl_text(
    fields: Seq<GenesisFieldView>,
    impl_gen: Seq<char>,
    use_gen: Seq<char>,
) -> Seq<char> {
    DEFAULT_OPEN@ + impl_gen + DEFAULT_FOR@ + use_gen + DEFAULT_FIELDS_OPEN@ + initializers_text(
        fields,
    ) + DEFAULT_CLOSE@
}

/// The genesis-config section: the aggregate, then its default, both with
/// the lists `generics`.
pub open spec fn genesis_config_text(
    fields: Seq<GenesisFieldView>,
    generics: GenesisGenericsView,
) -> Seq<char> {
    aggregate_text(fields, generics.decl_gen) + default_impl_text(
        fields,
        generics.impl_gen,
        generics.use_gen,
    )
}

/// The genesis-build section. The implementation is generic as the module
/// is; the aggregate it is for is named with `aggregate_use_gen`.
pub open spec fn genesis_build_text(
    blocks: Seq<Seq<char>>,
    module: GenericListsView,
    aggregate_use_gen: Seq<char>,
) -> Seq<char> {
    BUILD_OPEN@ + module.impl_gen + BUILD_TRAIT@ + module.use_gen + BUILD_FOR@ + aggregate_use_gen
        + BUILD_BODY_OPEN@ + build_blocks_text(blocks) + BUILD_CLOSE@
}

/// The two genesis sections of a template.
#[derive(Clone, Debug, PartialEq, Eq)]
pub struct GenesisSections {
    /// The aggregate and its default.
    pub genesis_config: String,
    /// What applying the aggregate runs.
    pub genesis_build: String,
}

/// What a [`GenesisSections`] reads.
pub ghost struct GenesisSectionsView {
    pub genesis_config: Seq<char>,
    pub genesis_build: Seq<char>,
}

impl View for GenesisSections {
    type V = GenesisSectionsView;

    open spec fn view(&self) -> GenesisSectionsView {
        GenesisSectionsView {
            genesis_config: self.genesis_config@,
            genesis_build: self.genesis_build@,
        }
    }
}

/// The genesis sections of a module.
///
/// Without any code to run at genesis there is nothing to configure:
/// both sections are empty, and whether the fields could be derived
/// plays no part. With such code the sections are made from the derived
/// fields; if the definition was rejected, so is the whole, for the same
/// reason.
pub open spec fn genesis_sections(
    module: GenericListsView,
    blocks: Seq<Seq<char>>,
    derived: Result<GenesisConfigView, Seq<char>>,
) -> Result<GenesisSectionsView, Seq<char>> {
    if blocks.len() == 0 {
        Ok(GenesisSectionsView { genesis_config: Seq::empty(), genesis_build: Seq::empty() })
    } else {
        match derived {
            Ok(config) => {
                let generics = genesis_generics(module, config.is_generic);
                Ok(
                    GenesisSectionsView {
                        genesis_config: genesis_config_text(config.fields, generics),
                        genesis_build: genesis_build_text(blocks, module, generics.use_gen),
                    },
                )
            },
            Err(detail) => Err(detail),
        }
    }
}

/// The aggregate declares its fields, and its default initialises them, in
/// one and the same order, that of the fields: the declaration of field `i`
/// stands after the declarations of the fields before it and before those
/// of the fields after it, and so does its initializer among the
/// initializers. Both name the field.
pub proof fn lemma_fields_in_matching_order(fields: Seq<GenesisFieldView>, i: int)
    requires
        0 <= i < fields.len(),
    ensures
        declaration_blocks(fields).len() == fields.len(),
        initializer_blocks(fields).len() == fields.len(),
        declarations_text(fields) == declarations_text(fields.take(i))
            + fields[i].declaration_text() + declarations_text(fields.skip(i + 1)),
        initializers_text(fields) == initializers_text(fields.take(i))
            + fields[i].initializer_text() + initializers_text(fields.skip(i + 1)),
        fields[i].declaration_text() == "\n\t\t"@ + fields[i].attrs_text() + fields[i].name + ": "@
            + fields[i].typ + ","@,
        fields[i].initializer_text() == "\n\t\t\t\t"@ + fields[i].name + ": "@
            + fields[i].default + ","@,
{
    let declarations = declaration_blocks(fields);
    lemma_block_in_place(declarations, i);
    assert(declarations.take(i) =~= declaration_blocks(fields.take(i)));
    assert(declarations.skip(i + 1) =~= declaration_blocks(fields.skip(i + 1)));
    let initializers = initializer_blocks(fields);
    lemma_block_in_place(initializers, i);
    assert(initializers.take(i) =~= initializer_blocks(fields.take(i)));
    assert(initializers.skip(i + 1) =~= initializer_blocks(fields.skip(i + 1)));
}

/// The code that applying the aggregate runs holds every piece whole and
/// in order: piece `i` stands, on its own line, after the pieces before it
/// and before the pieces after it.
pub proof fn lemma_build_blocks_in_order(blocks: Seq<Seq<char>>, i: int)
    requires
        0 <= i < blocks.len(),
    ensures
        build_blocks_text(blocks) == build_blocks_text(blocks.take(i)) + build_block_text(
            blocks[i],
        ) + build_blocks_text(blocks.skip(i + 1)),
{
    let lines = build_lines(blocks);
    lemma_block_in_place(lines, i);
    assert(lines.take(i) =~= build_lines(blocks.take(i)));
    assert(lines.skip(i + 1) =~= build_lines(blocks.skip(i + 1)));
}

/// Without code to run at genesis both genesis sections are empty,
/// whatever deriving the fields came to.
pub proof fn lemma_no_blocks_no_sections(
    module: GenericListsView,
    blocks: Seq<Seq<char>>,
    derived: Result<GenesisConfigView, Seq<char>>,
)
    requires
        blocks.len() == 0,
    ensures
        genesis_sections(module, blocks, derived) == Ok::<GenesisSectionsView, Seq<char>>(
            GenesisSectionsView { genesis_config: Seq::empty(), genesis_build: Seq::empty() },
        ),
{
}

/// With code to run at genesis and fields that could be derived, both
/// sections are there: the genesis-config section, which opens with its
/// annotation and holds the aggregate and then its default, and the
/// genesis-build section, which opens with its annotation.
pub proof fn lemma_blocks_give_both_sections(
    module: GenericListsView,
    blocks: Seq<Seq<char>>,
    config: GenesisConfigView,
)
    requires
        blocks.len() > 0,
    ensures
        genesis_sections(module, blocks, Ok(config)) matches Ok(sections) && {
            let generics = genesis_generics(module, config.is_generic);
            &&& sections.genesis_config == CONFIG_OPEN@ + generics.decl_gen + CONFIG_FIELDS_OPEN@
                + declarations_text(config.fields) + CONFIG_CLOSE@ + default_impl_text(
                config.fields,
                generics.impl_gen,
                generics.use_gen,
            )
            &&& sections.genesis_build == BUILD_OPEN@ + module.impl_gen + BUILD_TRAIT@
                + module.use_gen + BUILD_FOR@ + generics.use_gen + BUILD_BODY_OPEN@
                + build_blocks_text(blocks) + BUILD_CLOSE@
        },
{
}

/// An aggregate that is not generic carries no generic parameter list
/// anywhere: not on its declaration, not on its default, and not where the
/// genesis-build section names it.
pub proof fn lemma_not_generic_collapses(module: GenericListsView)
    ensures
        genesis_generics(module, false).decl_gen == Seq::<char>::empty(),
        genesis_generics(module, false).impl_gen == Seq::<char>::empty(),
        genesis_generics(module, false).use_gen == Seq::<char>::empty(),
{
}

impl GenesisGenerics {
    /// Derives the lists of the aggregate from those of its module.
    pub fn derive(module: &GenericLists, is_generic: bool) -> (generics: GenesisGenerics)
        ensures
            generics@ == genesis_generics(module@, is_generic),
    {
        if is_generic {
            GenesisGenerics {
                decl_gen: module.impl_gen,
                impl_gen: module.impl_gen,
                use_gen: module.use_gen,
            }
        } else {
            proof {
                reveal_strlit("");
                assert(""@ =~= Seq::<char>::empty());
            }
            GenesisGenerics { decl_gen: "", impl_gen: "", use_gen: "" }
        }
    }
}

impl GenesisField {
    /// Renders the kept annotations, each on a line of its own.
    pub fn render_attrs(&self) -> (out: String)
        ensures
            out@ == self@.attrs_text(),
    {
        let ghost blocks = attr_lines(self@.attrs);
        let mut out = String::new();
        let mut i: usize = 0;
        while i < self.attrs.len()
            invariant
                i <= self.attrs.len(),
                blocks == attr_lines(self@.attrs),
                out@ == blocks.take(i as int).flatten(),
            decreases self.attrs.len() - i,
        {
            proof {
                assert(blocks.take(i + 1) =~= blocks.take(i as int).push(blocks[i as int]));
                blocks.take(i as int).lemma_flatten_push(blocks[i as int]);
            }
            let mut block = String::from_str("#[");
            block.append(self.attrs[i].as_str());
            block.append("]\n\t\t");
            out.append(block.as_str());
            i += 1;
        }
        proof {
            assert(blocks.take(i as int) =~= blocks);
        }
        out
    }

    /// Renders the field as the aggregate declares it.
    pub fn render_declaration(&self) -> (out: String)
        ensures
            out@ == self@.declaration_text(),
    {
        let attrs = self.render_attrs();
        let mut out = String::from_str("\n\t\t");
        out.append(attrs.as_str());
        out.append(self.name.as_str());
        out.append(": ");
        out.append(self.typ.as_str());
        out.append(",");
        out
    }

    /// Renders the field as a default aggregate initialises it.
    pub fn render_initializer(&self) -> (out: String)
        ensures
            out@ == self@.initializer_text(),
    {
        let mut out = String::from_str("\n\t\t\t\t");
        out.append(self.name.as_str());
        out.append(": ");
        out.append(self.default.as_str());
        out.append(",");
        out
    }
}

/// Renders the declarations of all fields, in the order of `fields`.
pub fn render_field_declarations(fields: &Vec<GenesisField>) -> (out: String)
    ensures
        out@ == declarations_text(fields_view(fields@)),
{
    let ghost blocks = declaration_blocks(fields_view(fields@));
    let mut out = String::new();
    let mut i: usize = 0;
    while i < fields.len()
        invariant
            i <= fields.len(),
            blocks == declaration_blocks(fields_view(fields@)),
            out@ == blocks.take(i as int).flatten(),
        decreases fields.len() - i,
    {
        let block = fields[i].render_declaration();
        proof {
            assert(blocks.take(i + 1) =~= blocks.take(i as int).push(blocks[i as int]));
            blocks.take(i as int).lemma_flatten_push(blocks[i as int]);
        }
        out.append(block.as_str());
        i += 1;
    }
    proof {
        assert(blocks.take(i as int) =~= blocks);
    }
    out
}

/// Renders the initializers of all fields, in the order of `fields`.
pub fn render_field_initializers(fields: &Vec<GenesisField>) -> (out: String)
    ensures
        out@ == initializers_text(fields_view(fields@)),
{
    let ghost blocks = initializer_blocks(fields_view(fields@));
    let mut out = String::new();
    let mut i: usize = 0;
    while i < fields.len()
        invariant
            i <= fields.len(),
            blocks == initializer_blocks(fields_view(fields@)),
            out@ == blocks.take(i as int).flatten(),
        decreases fields.len() - i,
    {
        let block = fields[i].render_initializer();
        proof {
            assert(blocks.take(i + 1) =~= blocks.take(i as int).push(blocks[i as int]));
            blocks.take(i as int).lemma_flatten_push(blocks[i as int]);
        }
        out.append(block.as_str());
        i += 1;
    }
    proof {
        assert(blocks.take(i as int) =~= blocks);
    }
    out
}

/// Renders the code to run at genesis: every piece of `blocks`, in order,
/// each as it was handed in.
pub fn render_build_blocks(blocks: &Vec<String>) -> (out: String)
    ensures
        out@ == build_blocks_text(texts(blocks@)),
{
    let ghost lines = build_lines(texts(blocks@));
    let mut out = String::new();
    let mut i: usize = 0;
    while i < blocks.len()
        invariant
            i <= blocks.len(),
            lines == build_lines(texts(blocks@)),
            out@ == lines.take(i as int).flatten(),
        decreases blocks.len() - i,
    {
        proof {
            assert(lines.take(i + 1) =~= lines.take(i as int).push(lines[i as int]));
            lines.take(i as int).lemma_flatten_push(lines[i as int]);
        }
        let mut line = String::from_str("\n\t\t\t\t\t");
        line.append(blocks[i].as_str());
        out.append(line.as_str());
        i += 1;
    }
    proof {
        assert(lines.take(i as int) =~= lines);
    }
    out
}

/// Renders the genesis-config section with the lists `generics`.
pub fn render_genesis_config(fields: &Vec<GenesisField>, generics: &GenesisGenerics) -> (out: String)
    ensures
        out@ == genesis_config_text(fields_view(fields@), generics@),
{
    let declarations = render_field_declarations(fields);
    let initializers = render_field_initializers(fields);

    let mut aggregate = String::from_str(CONFIG_OPEN);
    aggregate.append(generics.decl_gen);
    aggregate.append(CONFIG_FIELDS_OPEN);
    aggregate.append(declarations.as_str());
    aggregate.append(CONFIG_CLOSE);

    let mut default_impl = String::from_str(DEFAULT_OPEN);
    default_impl.append(generics.impl_gen);
    default_impl.append(DEFAULT_FOR);
    default_impl.append(generics.use_gen);
    default_impl.append(DEFAULT_FIELDS_OPEN);
    default_impl.append(initializers.as_str());
    default_impl.append(DEFAULT_CLOSE);

    aggregate.append(default_impl.as_str());
    aggregate
}

/// Renders the genesis-build section for a module with the lists `module`,
/// around an aggregate that is named with `aggregate_use_gen`.
pub fn render_genesis_build(blocks: &Vec<String>, module: &GenericLists, aggregate_use_gen: &str) -> (out:
    String)
    ensures
        out@ == genesis_build_text(texts(blocks@), module@, aggregate_use_gen@),
{
    let body = render_build_blocks(blocks);
    let mut out = String::from_str(BUILD_OPEN);
    out.append(module.impl_gen);
    out.append(BUILD_TRAIT);
    out.append(module.use_gen);
    out.append(BUILD_FOR);
    out.append(aggregate_use_gen);
    out.append(BUILD_BODY_OPEN);
    out.append(body.as_str());
    out.append(BUILD_CLOSE);
    out
}

/// Tells whether a module has anything to do at genesis, that is, whether
/// there is any code to run. Only then are the derived fields looked at.
pub fn has_genesis(blocks: &Vec<String>) -> (present: bool)
    ensures
        present == (blocks@.len() > 0),
{
    blocks.len() > 0
}

/// Builds both genesis sections, or hands on why the fields could not be
/// derived.
pub fn render_genesis(
    module: &GenericLists,
    blocks: &Vec<String>,
    derived: &Result<GenesisConfig, String>,
) -> (sections: Result<GenesisSections, String>)
    ensures
        match genesis_sections(module@, texts(blocks@), derivation_view(*derived)) {
            Ok(expected) => sections is Ok && sections->Ok_0@ == expected,
            Err(detail) => sections is Err && sections->Err_0@ == detail,
        },
        sections is Ok <==> blocks@.len() == 0 || *derived is Ok,
        sections is Err ==> *derived is Err && sections->Err_0@ == derived->Err_0@,
{
    if !has_genesis(blocks) {
        return Ok(GenesisSections { genesis_config: String::new(), genesis_build: String::new() });
    }
    match derived {
        Ok(config) => {
            let generics = GenesisGenerics::derive(module, config.is_generic);
            Ok(
                GenesisSections {
                    genesis_config: render_genesis_config(&config.fields, &generics),
                    genesis_build: render_genesis_build(blocks, module, generics.use_gen),
                },
            )
        },
        Err(detail) => Err(detail.clone()),
    }
}

} // verus!
