//! Storage lines and the declaration that each one becomes.

use vstd::prelude::*;
use vstd::seq_lib::lemma_flatten_concat;
use vstd::string::*;
use crate::text::{lemma_block_in_place, opt_text};
use crate::visibility::{convert_vis, vis_text, Visibility};

verus! {

/// Opens the block that provides a default value.
pub const PROVIDER_OPEN: &'static str = "\n\t#[type_value] fn ";

/// Stands between the name of a default provider and its return type.
pub const PROVIDER_SIGNATURE: &'static str = " /* TODO_MAYBE_GENERICS */ () -> ";

/// Stands between the return type of a default provider and its body.
pub const PROVIDER_BODY_OPEN: &'static str = " {\n\t\t";

/// Closes the block that provides a default value.
pub const PROVIDER_CLOSE: &'static str = "\n\t}";

/// What every default provider's name begins with.
pub const PROVIDER_PREFIX: &'static str = "DefaultFor";

/// The annotation that marks a storage declaration.
pub const STORAGE_ATTR: &'static str = "\n\t#[pallet::storage]";

/// Opens the annotation that names an accessor.
pub const GETTER_OPEN: &'static str = "\n\t#[getter(fn ";

/// Closes the annotation that names an accessor.
pub const GETTER_CLOSE: &'static str = ")]";

/// Flags a line that is optional and yet has a default value.
pub const UNSUPPORTED_COMMENT: &'static str =
    " // TODO: This type of storage is no longer supported: `OptionQuery` cannot be used alongside a not-none value on empty storage. Please use `ValueQuery` instead.";

/// How a storage item is keyed, and the type of what it stores.
///
/// Hash functions and types are held as the text they are written in.
#[derive(Clone, Debug, PartialEq, Eq)]
pub enum StorageShape {
    /// A single value under no key.
    Simple { value: String },
    /// Values under one hashed key.
    SingleMap { hasher: String, key: String, value: String },
    /// Values under two keys, each hashed on its own.
    DoubleMap { hasher1: String, key1: String, hasher2: String, key2: String, value: String },
}

/// A [`StorageShape`] as the texts it holds.
pub ghost enum StorageShapeView {
    Simple { value: Seq<char> },
    SingleMap { hasher: Seq<char>, key: Seq<char>, value: Seq<char> },
    DoubleMap {
        hasher1: Seq<char>,
        key1: Seq<char>,
        hasher2: Seq<char>,
        key2: Seq<char>,
        value: Seq<char>,
    },
}

impl View for StorageShape {
    type V = StorageShapeView;

    open spec fn view(&self) -> StorageShapeView {
        match *self {
            StorageShape::Simple { value } => StorageShapeView::Simple { value: value@ },
            StorageShape::SingleMap { hasher, key, value } => StorageShapeView::SingleMap {
                hasher: hasher@,
                key: key@,
                value: value@,
            },
            StorageShape::DoubleMap {
                hasher1,
                key1,
                hasher2,
                key2,
                value,
            } => StorageShapeView::DoubleMap {
                hasher1: hasher1@,
                key1: key1@,
                hasher2: hasher2@,
                key2: key2@,
                value: value@,
            },
        }
    }
}

impl StorageShapeView {
    /// The type of the stored value, which every shape carries.
    pub open spec fn value_type(self) -> Seq<char> {
        match self {
            StorageShapeView::Simple { value } => value,
            StorageShapeView::SingleMap { value, .. } => value,
            StorageShapeView::DoubleMap { value, .. } => value,
        }
    }

    /// The container and the arguments that depend on the shape: the hash
    /// function and type of each key, then the value type.
    pub open spec fn args_text(self) -> Seq<char> {
        match self {
            StorageShapeView::Simple { value } => "StorageValue<_, "@ + value,
            StorageShapeView::SingleMap { hasher, key, value } => "StorageMap<_, "@ + hasher
                + ", "@ + key + ", "@ + value,
            StorageShapeView::DoubleMap { hasher1, key1, hasher2, key2, value } =>
                "StorageDoubleMap<_, "@ + hasher1 + ", "@ + key1 + ", "@ + hasher2 + ", "@ + key2
                    + ", "@ + value,
        }
    }
}

/// One declared storage item.
///
/// Names and expressions are held as the text they are written in; nothing
/// here looks inside them. The type of the stored value is the one that
/// the line's shape carries.
#[derive(Clone, Debug, PartialEq, Eq)]
pub struct StorageLine {
    /// Who may see the item.
    pub visibility: Visibility,
    /// The item's name.
    pub name: String,
    /// The accessor to generate, if one is asked for.
    pub getter: Option<String>,
    /// What reading yields while nothing is stored, if the line says so.
    pub default_value: Option<String>,
    /// How the item is keyed, and the type of what it stores.
    pub storage_type: StorageShape,
    /// Whether the value may be absent.
    pub is_option: bool,
}

/// A [`StorageLine`] as the texts it holds.
pub ghost struct StorageLineView {
    pub visibility: Visibility,
    pub name: Seq<char>,
    pub getter: Option<Seq<char>>,
    pub default_value: Option<Seq<char>>,
    pub storage_type: StorageShapeView,
    pub is_option: bool,
}

impl View for StorageLine {
    type V = StorageLineView;

    open spec fn view(&self) -> StorageLineView {
        StorageLineView {
            visibility: self.visibility,
            name: self.name@,
            getter: opt_text(self.getter),
            default_value: opt_text(self.default_value),
            storage_type: self.storage_type@,
            is_option: self.is_option,
        }
    }
}

/// What reading an absent value yields.
#[derive(Clone, Copy, Debug, PartialEq, Eq, Structural)]
pub enum QueryKind {
    /// A value always: the type's default, or the line's, stands in.
    ValueQuery,
    /// Nothing, explicitly.
    OptionQuery,
}

/// What inferring the query kind of a line comes to. A line that cannot be
/// said as it stands is no failure: it is declared all the same, and
/// flagged.
#[derive(Clone, Copy, Debug, PartialEq, Eq)]
pub enum Inference {
    /// The line can be declared as it stands, with this kind.
    Supported(QueryKind),
    /// The line asks for an optional value with a default. It is declared
    /// with `kind`, and `warning` is put after the declaration.
    Unsupported { kind: QueryKind, warning: &'static str },
}

impl Inference {
    /// The kind to declare the line with.
    pub open spec fn kind(self) -> QueryKind {
        match self {
            Inference::Supported(kind) => kind,
            Inference::Unsupported { kind, .. } => kind,
        }
    }

    /// The comment to put after the declaration; empty if there is none.
    pub open spec fn warning_text(self) -> Seq<char> {
        match self {
            Inference::Supported(_) => Seq::empty(),
            Inference::Unsupported { warning, .. } => warning@,
        }
    }
}

/// The argument that selects `kind`, with the comma that precedes it.
pub open spec fn comma_query_kind_text(kind: QueryKind) -> Seq<char> {
    match kind {
        QueryKind::ValueQuery => ", ValueQuery"@,
        QueryKind::OptionQuery => ", OptionQuery"@,
    }
}

impl StorageLineView {
    /// The type of the stored value: the one that the shape carries.
    pub open spec fn value_type(self) -> Seq<char> {
        self.storage_type.value_type()
    }

    /// The kind the declaration is given. Only an optional line without a
    /// default value reads as absent; a line that is not optional always
    /// yields a value, and an optional line with a default is declared as
    /// yielding one too, since absence and a default exclude each other.
    pub open spec fn query_kind(self) -> QueryKind {
        if self.is_option && self.default_value is None {
            QueryKind::OptionQuery
        } else {
            QueryKind::ValueQuery
        }
    }

    /// Whether the line asks for what the attribute-based form cannot say:
    /// an optional value with a default.
    pub open spec fn is_unsupported(self) -> bool {
        self.is_option && self.default_value is Some
    }

    /// The name of the line's default provider.
    pub open spec fn provider_name(self) -> Seq<char> {
        PROVIDER_PREFIX@ + self.name
    }

    /// The block that provides the default value; empty without one.
    pub open spec fn provider_text(self) -> Seq<char> {
        match self.default_value {
            Some(default_expr) => PROVIDER_OPEN@ + self.provider_name() + PROVIDER_SIGNATURE@
                + self.value_type() + PROVIDER_BODY_OPEN@ + default_expr + PROVIDER_CLOSE@,
            None => Seq::empty(),
        }
    }

    /// The argument that names the default provider, with the comma that
    /// precedes it; empty without a default value.
    pub open spec fn comma_provider_text(self) -> Seq<char> {
        match self.default_value {
            Some(_) => ", "@ + self.provider_name(),
            None => Seq::empty(),
        }
    }

    /// The two arguments that every shape ends with: the query kind and,
    /// after it, the default provider.
    pub open spec fn trailing_args_text(self) -> Seq<char> {
        comma_query_kind_text(self.query_kind()) + self.comma_provider_text()
    }

    /// The storage type that the declaration names.
    pub open spec fn storage_type_text(self) -> Seq<char> {
        self.storage_type.args_text() + self.trailing_args_text() + ">"@
    }

    /// The annotation that names the accessor; empty without one.
    pub open spec fn getter_text(self) -> Seq<char> {
        match self.getter {
            Some(getter) => GETTER_OPEN@ + getter + GETTER_CLOSE@,
            None => Seq::empty(),
        }
    }

    /// The comment after the declaration; empty unless the line is an
    /// unsupported one.
    pub open spec fn comment_text(self) -> Seq<char> {
        if self.is_unsupported() {
            UNSUPPORTED_COMMENT@
        } else {
            Seq::empty()
        }
    }

    /// The declaration from its annotation to its semicolon.
    pub open spec fn declaration_text(self, use_gen: Seq<char>) -> Seq<char> {
        STORAGE_ATTR@ + self.getter_text() + "\n\t"@ + vis_text(self.visibility) + " type "@
            + self.name + use_gen + " = "@ + self.storage_type_text() + ";"@
    }

    /// All that the line contributes: the default provider, the declaration
    /// and the comment, in this order.
    pub open spec fn text(self, use_gen: Seq<char>) -> Seq<char> {
        "\n"@ + self.provider_text() + self.declaration_text(use_gen) + self.comment_text()
    }
}

/// The block of each line, in the order of the lines.
pub open spec fn storage_blocks(lines: Seq<StorageLineView>, use_gen: Seq<char>) -> Seq<Seq<char>> {
    Seq::new(lines.len(), |i: int| lines[i].text(use_gen))
}

/// The storage section: the blocks of all lines, one after the other.
pub open spec fn storages_text(lines: Seq<StorageLineView>, use_gen: Seq<char>) -> Seq<char> {
    storage_blocks(lines, use_gen).flatten()
}

/// The lines of a vector as the texts they hold.
pub open spec fn lines_view(lines: Seq<StorageLine>) -> Seq<StorageLineView> {
    Seq::new(lines.len(), |i: int| lines[i]@)
}

/// A line that is not optional is declared with `ValueQuery`, whether or
/// not it has a default value, and no comment follows its declaration.
pub proof fn lemma_not_optional_yields_value(line: StorageLineView)
    requires
        !line.is_option,
    ensures
        line.query_kind() == QueryKind::ValueQuery,
        line.storage_type_text() == line.storage_type.args_text() + ", ValueQuery"@
            + line.comma_provider_text() + ">"@,
        line.comment_text() == Seq::<char>::empty(),
{
}

/// An optional line without a default value is declared with `OptionQuery`
/// as its last argument, and no comment follows its declaration.
pub proof fn lemma_optional_without_default_yields_option(line: StorageLineView)
    requires
        line.is_option,
        line.default_value is None,
    ensures
        line.query_kind() == QueryKind::OptionQuery,
        line.storage_type_text() == line.storage_type.args_text() + ", OptionQuery"@ + ">"@,
        line.comment_text() == Seq::<char>::empty(),
{
}

/// An optional line with a default value is declared with `ValueQuery`,
/// keeps its default provider, and has the comment that flags it right
/// after its declaration.
pub proof fn lemma_optional_with_default_is_flagged(line: StorageLineView, use_gen: Seq<char>)
    requires
        line.is_option,
        line.default_value is Some,
    ensures
        line.query_kind() == QueryKind::ValueQuery,
        line.storage_type_text() == line.storage_type.args_text() + ", ValueQuery"@ + ", "@
            + line.provider_name() + ">"@,
        line.text(use_gen) == "\n"@ + line.provider_text() + line.declaration_text(use_gen)
            + UNSUPPORTED_COMMENT@,
{
}

/// A line with a default value has its default provider right before its
/// declaration: a block named by the fixed prefix and the line's name, of
/// the line's value type, that holds the default expression as it was
/// given. The name of that provider is the last argument of the declared
/// storage type.
pub proof fn lemma_default_is_provided(line: StorageLineView, use_gen: Seq<char>)
    requires
        line.default_value is Some,
    ensures
        line.provider_name() == PROVIDER_PREFIX@ + line.name,
        line.provider_text() == PROVIDER_OPEN@ + line.provider_name() + PROVIDER_SIGNATURE@
            + line.value_type() + PROVIDER_BODY_OPEN@ + line.default_value->0 + PROVIDER_CLOSE@,
        line.text(use_gen) == "\n"@ + line.provider_text() + line.declaration_text(use_gen)
            + line.comment_text(),
        line.storage_type_text() == line.storage_type.args_text() + comma_query_kind_text(
            line.query_kind(),
        ) + ", "@ + line.provider_name() + ">"@,
{
}

/// A line without a default value has no default provider: its block is
/// the declaration alone, and the query kind is the last argument of the
/// declared storage type.
pub proof fn lemma_no_default_no_provider(line: StorageLineView, use_gen: Seq<char>)
    requires
        line.default_value is None,
    ensures
        line.provider_text() == Seq::<char>::empty(),
        line.text(use_gen) == "\n"@ + line.declaration_text(use_gen),
        line.storage_type_text() == line.storage_type.args_text() + comma_query_kind_text(
            line.query_kind(),
        ) + ">"@,
{
}

/// The storage section holds one block for each line, in the order of the
/// lines: the block of line `i` stands right after the section of the
/// lines before it and right before the section of the lines after it.
pub proof fn lemma_blocks_follow_lines(lines: Seq<StorageLineView>, use_gen: Seq<char>, i: int)
    requires
        0 <= i < lines.len(),
    ensures
        storage_blocks(lines, use_gen).len() == lines.len(),
        storage_blocks(lines, use_gen)[i] == lines[i].text(use_gen),
        storages_text(lines, use_gen) == storages_text(lines.take(i), use_gen) + lines[i].text(
            use_gen,
        ) + storages_text(lines.skip(i + 1), use_gen),
{
    let blocks = storage_blocks(lines, use_gen);
    lemma_block_in_place(blocks, i);
    assert(blocks.take(i) =~= storage_blocks(lines.take(i), use_gen));
    assert(blocks.skip(i + 1) =~= storage_blocks(lines.skip(i + 1), use_gen));
}

/// The storage section of two runs of lines is the section of the first
/// run followed by the section of the second.
pub proof fn lemma_storages_concat(
    first: Seq<StorageLineView>,
    second: Seq<StorageLineView>,
    use_gen: Seq<char>,
)
    ensures
        storages_text(first + second, use_gen) == storages_text(first, use_gen) + storages_text(
            second,
            use_gen,
        ),
{
    assert(storage_blocks(first + second, use_gen) =~= storage_blocks(first, use_gen)
        + storage_blocks(second, use_gen));
    lemma_flatten_concat(storage_blocks(first, use_gen), storage_blocks(second, use_gen));
}

/// Without lines the storage section is empty.
pub proof fn lemma_no_lines_no_storages(lines: Seq<StorageLineView>, use_gen: Seq<char>)
    requires
        lines.len() == 0,
    ensures
        storages_text(lines, use_gen) == Seq::<char>::empty(),
{
}

impl StorageShape {
    /// The type of the stored value.
    pub fn value_type(&self) -> (value: &String)
        ensures
            value@ == self@.value_type(),
    {
        match self {
            StorageShape::Simple { value } => value,
            StorageShape::SingleMap { value, .. } => value,
            StorageShape::DoubleMap { value, .. } => value,
        }
    }

    /// Renders the container and the arguments that depend on the shape.
    pub fn render_args(&self) -> (out: String)
        ensures
            out@ == self@.args_text(),
    {
        match self {
            StorageShape::Simple { value } => {
                let mut out = String::from_str("StorageValue<_, ");
                out.append(value.as_str());
                out
            },
            StorageShape::SingleMap { hasher, key, value } => {
                let mut out = String::from_str("StorageMap<_, ");
                out.append(hasher.as_str());
                out.append(", ");
                out.append(key.as_str());
                out.append(", ");
                out.append(value.as_str());
                out
            },
            StorageShape::DoubleMap { hasher1, key1, hasher2, key2, value } => {
                let mut out = String::from_str("StorageDoubleMap<_, ");
                out.append(hasher1.as_str());
                out.append(", ");
                out.append(key1.as_str());
                out.append(", ");
                out.append(hasher2.as_str());
                out.append(", ");
                out.append(key2.as_str());
                out.append(", ");
                out.append(value.as_str());
                out
            },
        }
    }
}

impl StorageLine {
    /// The type of the stored value.
    pub fn value_type(&self) -> (value: &String)
        ensures
            value@ == self@.value_type(),
    {
        self.storage_type.value_type()
    }

    /// Infers the query kind, and flags the line if it is optional and has
    /// a default value.
    pub fn infer_query_kind(&self) -> (inference: Inference)
        ensures
            inference.kind() == self@.query_kind(),
            inference.warning_text() == self@.comment_text(),
            inference is Unsupported <==> self@.is_unsupported(),
    {
        if !self.is_option {
            Inference::Supported(QueryKind::ValueQuery)
        } else if self.default_value.is_none() {
            Inference::Supported(QueryKind::OptionQuery)
        } else {
            Inference::Unsupported { kind: QueryKind::ValueQuery, warning: UNSUPPORTED_COMMENT }
        }
    }

    /// The kind the line is declared with.
    pub fn query_kind(&self) -> (kind: QueryKind)
        ensures
            kind == self@.query_kind(),
    {
        match self.infer_query_kind() {
            Inference::Supported(kind) => kind,
            Inference::Unsupported { kind, .. } => kind,
        }
    }

    /// Tells whether the line is optional and has a default value.
    pub fn is_unsupported(&self) -> (unsupported: bool)
        ensures
            unsupported == self@.is_unsupported(),
    {
        match self.infer_query_kind() {
            Inference::Supported(_) => false,
            Inference::Unsupported { .. } => true,
        }
    }

    /// Derives the name of the default provider from the line's name.
    pub fn provider_name(&self) -> (name: String)
        ensures
            name@ == self@.provider_name(),
    {
        let mut name = String::from_str(PROVIDER_PREFIX);
        name.append(self.name.as_str());
        name
    }

    /// Renders the block that provides the default value.
    pub fn render_provider(&self) -> (out: String)
        ensures
            out@ == self@.provider_text(),
    {
        match &self.default_value {
            Some(default_expr) => {
                let name = self.provider_name();
                let mut out = String::from_str(PROVIDER_OPEN);
                out.append(name.as_str());
                out.append(PROVIDER_SIGNATURE);
                out.append(self.value_type().as_str());
                out.append(PROVIDER_BODY_OPEN);
                out.append(default_expr.as_str());
                out.append(PROVIDER_CLOSE);
                out
            },
            None => String::new(),
        }
    }

    /// Renders the storage type with all its arguments.
    pub fn render_storage_type(&self) -> (out: String)
        ensures
            out@ == self@.storage_type_text(),
    {
        let mut out = self.storage_type.render_args();
        let mut trailing = match self.query_kind() {
            QueryKind::ValueQuery => String::from_str(", ValueQuery"),
            QueryKind::OptionQuery => String::from_str(", OptionQuery"),
        };
        if self.default_value.is_some() {
            let name = self.provider_name();
            let mut argument = String::from_str(", ");
            argument.append(name.as_str());
            trailing.append(argument.as_str());
        }
        out.append(trailing.as_str());
        out.append(">");
        out
    }

    /// Renders the annotation that names the accessor.
    pub fn render_getter(&self) -> (out: String)
        ensures
            out@ == self@.getter_text(),
    {
        match &self.getter {
            Some(getter) => {
                let mut out = String::from_str(GETTER_OPEN);
                out.append(getter.as_str());
                out.append(GETTER_CLOSE);
                out
            },
            None => String::new(),
        }
    }

    /// Renders the declaration, from its annotation to its semicolon.
    pub fn render_declaration(&self, use_gen: &str) -> (out: String)
        ensures
            out@ == self@.declaration_text(use_gen@),
    {
        let getter = self.render_getter();
        let storage_type = self.render_storage_type();
        let mut out = String::from_str(STORAGE_ATTR);
        out.append(getter.as_str());
        out.append("\n\t");
        out.append(convert_vis(&self.visibility));
        out.append(" type ");
        out.append(self.name.as_str());
        out.append(use_gen);
        out.append(" = ");
        out.append(storage_type.as_str());
        out.append(";");
        out
    }

    /// Renders all that the line contributes to the storage section.
    pub fn render(&self, use_gen: &str) -> (out: String)
        ensures
            out@ == self@.text(use_gen@),
    {
        let provider = self.render_provider();
        let declaration = self.render_declaration(use_gen);
        let mut out = String::from_str("\n");
        out.append(provider.as_str());
        out.append(declaration.as_str());
        match self.infer_query_kind() {
            Inference::Supported(_) => {},
            Inference::Unsupported { warning, .. } => {
                out.append(warning);
            },
        }
        out
    }
}

/// Renders the storage section: each line's block, in the order of `lines`.
pub fn render_storages(lines: &Vec<StorageLine>, use_gen: &str) -> (out: String)
    ensures
        out@ == storages_text(lines_view(lines@), use_gen@),
{
    let ghost blocks = storage_blocks(lines_view(lines@), use_gen@);
    let mut out = String::new();
    let mut i: usize = 0;
    while i < lines.len()
        invariant
            i <= lines.len(),
            blocks == storage_blocks(lines_view(lines@), use_gen@),
            out@ == blocks.take(i as int).flatten(),
        decreases lines.len() - i,
    {
        let block = lines[i].render(use_gen);
        proof {
            assert(blocks.take(i + 1) =~= blocks.take(i as int).push(blocks[i as int]));
            blocks.take(i as int).lemma_flatten_push(blocks[i as int]);
        }
        out.append(block.as_str());
        i += 1;
    }
    proof {
        assert(blocks.take(i as int) =~= blocks);
    }
    out
}

} // verus!
