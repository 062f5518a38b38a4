//! From the description of a configuration type, as its author wrote it, to
//! its schema.
//!
//! Nested types are described first and registered; a field that is marked as
//! nested is resolved by the name of its type.

use vstd::prelude::*;
use crate::schema::{FieldKind, FieldKindView, FieldSpec, FieldSpecView, Schema, SchemaView};
use crate::text::str_eq;
use crate::type_desc::{unwrap_option, TypeDesc, TypeDescView};
use crate::value::{decode, decoded, leaf_type_named, LeafType, Literal, LiteralView};

verus! {

/// How a field is declared: as a leaf, with or without a default literal, or
/// as a nested configuration.
#[derive(Debug, PartialEq, Eq)]
pub enum FieldSource {
    Leaf { default: Option<Literal> },
    Nested,
}

/// One field as its author declared it.
#[derive(Debug, PartialEq, Eq)]
pub struct FieldDescription {
    pub name: String,
    pub ty: TypeDesc,
    pub source: FieldSource,
}

/// A configuration type as its author declared it.
#[derive(Debug, PartialEq, Eq)]
pub struct TypeDescription {
    pub name: String,
    pub fields: Vec<FieldDescription>,
}

/// The schemas of the configuration types described so far.
#[derive(Debug, PartialEq, Eq)]
pub struct SchemaRegistry {
    pub schemas: Vec<Schema>,
}

/// What is wrong with a field of a description.
#[derive(Clone, Copy, Debug, PartialEq, Eq, Structural)]
pub enum SchemaFault {
    /// An earlier field has the same name.
    DuplicateField,
    /// The field is nested and no schema is registered for its type.
    UnresolvedNested,
    /// The default literal does not fit the declared type of the leaf.
    MalformedDefault,
}

/// A description that no schema can be built from.
#[derive(Debug, PartialEq, Eq)]
pub struct SchemaBuildError {
    pub fault: SchemaFault,
    /// The name of the configuration type.
    pub config: String,
    /// The name of the field at fault.
    pub field: String,
}

/// The mathematical content of a [`FieldSource`].
pub enum FieldSourceView {
    Leaf { default: Option<LiteralView> },
    Nested,
}

/// The mathematical content of a [`FieldDescription`].
pub struct FieldDescriptionView {
    pub name: Seq<char>,
    pub ty: TypeDescView,
    pub source: FieldSourceView,
}

/// The mathematical content of a [`TypeDescription`].
pub struct TypeDescriptionView {
    pub name: Seq<char>,
    pub fields: Seq<FieldDescriptionView>,
}

/// The mathematical content of a [`SchemaBuildError`].
pub struct SchemaBuildErrorView {
    pub fault: SchemaFault,
    pub config: Seq<char>,
    pub field: Seq<char>,
}

impl View for FieldSource {
    type V = FieldSourceView;

    open spec fn view(&self) -> FieldSourceView {
        match self {
            FieldSource::Leaf { default } => FieldSourceView::Leaf {
                default: match default {
                    Some(lit) => Some(lit@),
                    None => None,
                },
            },
            FieldSource::Nested => FieldSourceView::Nested,
        }
    }
}

impl View for FieldDescription {
    type V = FieldDescriptionView;

    open spec fn view(&self) -> FieldDescriptionView {
        FieldDescriptionView { name: self.name@, ty: self.ty@, source: self.source@ }
    }
}

impl View for TypeDescription {
    type V = TypeDescriptionView;

    open spec fn view(&self) -> TypeDescriptionView {
        TypeDescriptionView {
            name: self.name@,
            fields: Seq::new(self.fields@.len(), |i: int| self.fields@[i]@),
        }
    }
}

impl View for SchemaRegistry {
    type V = Seq<SchemaView>;

    open spec fn view(&self) -> Seq<SchemaView> {
        Seq::new(self.schemas@.len(), |i: int| self.schemas@[i]@)
    }
}

impl View for SchemaBuildError {
    type V = SchemaBuildErrorView;

    open spec fn view(&self) -> SchemaBuildErrorView {
        SchemaBuildErrorView { fault: self.fault, config: self.config@, field: self.field@ }
    }
}

/// The first schema from position `from` on that is registered under `name`.
pub open spec fn registered_from(registry: Seq<SchemaView>, name: Seq<char>, from: int) -> Option<
    SchemaView,
>
    decreases registry.len() - from,
{
    if from < 0 || from >= registry.len() {
        None
    } else if registry[from].name == name {
        Some(registry[from])
    } else {
        registered_from(registry, name, from + 1)
    }
}

/// The schema registered under `name`: the first of that name.
pub open spec fn registered(registry: Seq<SchemaView>, name: Seq<char>) -> Option<SchemaView> {
    registered_from(registry, name, 0)
}

/// The leaf type that a written type declares: that of the last name on its
/// path, and unknown where it is no path.
pub open spec fn leaf_type_of(ty: TypeDescView) -> LeafType {
    match ty.last_name() {
        Some(name) => leaf_type_named(name),
        None => LeafType::Other,
    }
}

impl FieldDescriptionView {
    /// The field of the schema that this declaration describes, or what is
    /// wrong with it.
    ///
    /// The field is optional exactly when its type is written as an optional
    /// wrapper. The default of a leaf is decoded as a value of the type
    /// inside the wrapper. A nested field gets the schema registered under
    /// the last name on the path of that type.
    pub open spec fn described(self, registry: Seq<SchemaView>) -> Result<
        FieldSpecView,
        SchemaFault,
    > {
        let optional = self.ty.is_optional();
        let inner = self.ty.unwrapped();
        match self.source {
            FieldSourceView::Leaf { default } => match default {
                None => Ok(
                    FieldSpecView {
                        name: self.name,
                        kind: FieldKindView::Leaf { default: None },
                        optional,
                    },
                ),
                Some(lit) => match decoded(lit, leaf_type_of(inner)) {
                    Some(v) => Ok(
                        FieldSpecView {
                            name: self.name,
                            kind: FieldKindView::Leaf { default: Some(v) },
                            optional,
                        },
                    ),
                    None => Err(SchemaFault::MalformedDefault),
                },
            },
            FieldSourceView::Nested => match inner.last_name() {
                None => Err(SchemaFault::UnresolvedNested),
                Some(name) => match registered(registry, name) {
                    None => Err(SchemaFault::UnresolvedNested),
                    Some(schema) => Ok(
                        FieldSpecView {
                            name: self.name,
                            kind: FieldKindView::Nested { schema },
                            optional,
                        },
                    ),
                },
            },
        }
    }
}

impl TypeDescriptionView {
    /// An earlier field has the name of field `i`.
    pub open spec fn repeats_earlier(self, i: int) -> bool {
        exists|j: int| 0 <= j < i && #[trigger] self.fields[j].name == self.fields[i].name
    }

    /// What is wrong with field `i`, if anything: a repeated name, or else
    /// what its own description fails on.
    pub open spec fn fault_at(self, registry: Seq<SchemaView>, i: int) -> Option<SchemaFault> {
        if self.repeats_earlier(i) {
            Some(SchemaFault::DuplicateField)
        } else {
            match self.fields[i].described(registry) {
                Ok(_) => None,
                Err(fault) => Some(fault),
            }
        }
    }

    /// The first field at fault from position `from` on, with its fault.
    pub open spec fn first_fault_from(self, registry: Seq<SchemaView>, from: int) -> Option<
        (int, SchemaFault),
    >
        decreases self.fields.len() - from,
    {
        if from < 0 || from >= self.fields.len() {
            None
        } else {
            match self.fault_at(registry, from) {
                Some(fault) => Some((from, fault)),
                None => self.first_fault_from(registry, from + 1),
            }
        }
    }

    /// The schema of the described type: its fields in declaration order,
    /// each as described. Where a field is at fault, the error names the
    /// first such field.
    pub open spec fn built(self, registry: Seq<SchemaView>) -> Result<
        SchemaView,
        SchemaBuildErrorView,
    > {
        match self.first_fault_from(registry, 0) {
            Some((i, fault)) => Err(
                SchemaBuildErrorView { fault, config: self.name, field: self.fields[i].name },
            ),
            None => Ok(
                SchemaView {
                    name: self.name,
                    fields: Seq::new(
                        self.fields.len(),
                        |i: int| self.fields[i].described(registry)->Ok_0,
                    ),
                },
            ),
        }
    }
}

/// All schemas of the registry are well formed.
pub open spec fn registry_well_formed(registry: Seq<SchemaView>) -> bool {
    forall|i: int| 0 <= i < registry.len() ==> (#[trigger] registry[i]).well_formed()
}

/// A schema found in a well-formed registry is well formed.
pub proof fn lemma_registered_well_formed(registry: Seq<SchemaView>, name: Seq<char>, from: int)
    requires
        registry_well_formed(registry),
        0 <= from,
    ensures
        registered_from(registry, name, from) matches Some(schema) ==> schema.well_formed()
            && schema.name == name,
    decreases registry.len() - from,
{
    if from < registry.len() && registry[from].name != name {
        lemma_registered_well_formed(registry, name, from + 1);
    }
}

/// No field from `from` on is at fault exactly when nothing is found there.
pub proof fn lemma_no_fault(desc: TypeDescriptionView, registry: Seq<SchemaView>, from: int)
    requires
        0 <= from,
    ensures
        desc.first_fault_from(registry, from) is None <==> forall|i: int|
            from <= i < desc.fields.len() ==> (#[trigger] desc.fault_at(registry, i)) is None,
    decreases desc.fields.len() - from,
{
    if from < desc.fields.len() {
        lemma_no_fault(desc, registry, from + 1);
        if desc.first_fault_from(registry, from) is None {
            assert forall|i: int| from <= i < desc.fields.len() implies (#[trigger] desc.fault_at(
                registry,
                i,
            )) is None by {
                if i > from {
                }
            }
        }
    }
}

/// A schema built over a well-formed registry is well formed.
pub proof fn lemma_built_well_formed(desc: TypeDescriptionView, registry: Seq<SchemaView>)
    requires
        registry_well_formed(registry),
    ensures
        desc.built(registry) matches Ok(schema) ==> schema.well_formed(),
{
    if let Ok(schema) = desc.built(registry) {
        lemma_no_fault(desc, registry, 0);
        assert forall|i: int, j: int| 0 <= i < j < schema.fields.len() implies schema.fields[i].name
            != schema.fields[j].name by {
            assert(desc.fault_at(registry, j) is None);
            assert(desc.fault_at(registry, i) is None);
            if schema.fields[i].name == schema.fields[j].name {
            }
        }
        assert forall|i: int| 0 <= i < schema.fields.len() implies (#[trigger] schema.fields[i]).well_formed() by {
            assert(desc.fault_at(registry, i) is None);
            let field = desc.fields[i];
            match field.source {
                FieldSourceView::Leaf { .. } => {},
                FieldSourceView::Nested => {
                    lemma_registered_well_formed(
                        registry,
                        field.ty.unwrapped().last_name()->Some_0,
                        0,
                    );
                },
            }
        }
    }
}

/// The message of a fault in the field `field` of the type `config`.
pub open spec fn fault_message(fault: SchemaFault, config: Seq<char>, field: Seq<char>) -> Seq<
    char,
> {
    match fault {
        SchemaFault::DuplicateField => "config field `"@ + config + "::"@ + field
            + "` is declared twice"@,
        SchemaFault::UnresolvedNested => "nested config field `"@ + config + "::"@ + field
            + "` has no registered schema"@,
        SchemaFault::MalformedDefault => "default config value for `"@ + config + "::"@ + field
            + "` cannot be deserialized"@,
    }
}

impl SchemaBuildError {
    /// What went wrong, for the author of the description to read.
    pub fn message(&self) -> (r: String)
        ensures
            r@ == fault_message(self.fault, self.config@, self.field@),
    {
        let mut out = match self.fault {
            SchemaFault::DuplicateField => "config field `".to_owned(),
            SchemaFault::UnresolvedNested => "nested config field `".to_owned(),
            SchemaFault::MalformedDefault => "default config value for `".to_owned(),
        };
        out.append(self.config.as_str());
        out.append("::");
        out.append(self.field.as_str());
        match self.fault {
            SchemaFault::DuplicateField => out.append("` is declared twice"),
            SchemaFault::UnresolvedNested => out.append("` has no registered schema"),
            SchemaFault::MalformedDefault => out.append("` cannot be deserialized"),
        }
        out
    }
}

impl SchemaRegistry {
    /// A registry without schemas.
    pub fn new() -> (r: SchemaRegistry)
        ensures
            r@ == Seq::<SchemaView>::empty(),
    {
        SchemaRegistry { schemas: Vec::new() }
    }

    /// Adds a schema; one registered earlier under the same name stays the
    /// one that is found.
    pub fn register(&mut self, schema: Schema)
        ensures
            final(self)@ == old(self)@.push(schema@),
            registry_well_formed(old(self)@) && schema@.well_formed() ==> registry_well_formed(
                final(self)@,
            ),
    {
        self.schemas.push(schema);
        assert(self@ =~= old(self)@.push(schema@));
    }

    /// The first schema registered under `name`.
    pub fn lookup(&self, name: &str) -> (r: Option<&Schema>)
        ensures
            match r {
                Some(schema) => registered(self@, name@) == Some(schema@),
                None => registered(self@, name@) is None,
            },
    {
        let mut i: usize = 0;
        while i < self.schemas.len()
            invariant
                i <= self.schemas@.len(),
                registered(self@, name@) == registered_from(self@, name@, i as int),
            decreases self.schemas@.len() - i,
        {
            let schema = &self.schemas[i];
            if str_eq(schema.name.as_str(), name) {
                return Some(schema);
            }
            i = i + 1;
        }
        None
    }
}

fn leaf_type(ty: &TypeDesc) -> (r: LeafType)
    ensures
        r == leaf_type_of(ty@),
{
    match ty.last_name() {
        Some(name) => LeafType::named(name),
        None => LeafType::Other,
    }
}

/// Describes one field: decides whether it is optional, decodes the default
/// of a leaf, and resolves the schema of a nested field.
pub fn describe_field(field: &FieldDescription, registry: &SchemaRegistry) -> (r: Result<
    FieldSpec,
    SchemaFault,
>)
    ensures
        match r {
            Ok(spec) => field@.described(registry@) == Ok::<FieldSpecView, SchemaFault>(spec@),
            Err(fault) => field@.described(registry@) == Err::<FieldSpecView, SchemaFault>(fault),
        },
{
    let optional = unwrap_option(&field.ty).is_some();
    let inner = field.ty.unwrapped();
    match &field.source {
        FieldSource::Leaf { default } => match default {
            None => Ok(
                FieldSpec {
                    name: field.name.clone(),
                    kind: FieldKind::Leaf { default: None },
                    optional,
                },
            ),
            Some(lit) => match decode(lit, leaf_type(inner)) {
                Some(v) => Ok(
                    FieldSpec {
                        name: field.name.clone(),
                        kind: FieldKind::Leaf { default: Some(v) },
                        optional,
                    },
                ),
                None => Err(SchemaFault::MalformedDefault),
            },
        },
        FieldSource::Nested => match inner.last_name() {
            None => Err(SchemaFault::UnresolvedNested),
            Some(name) => match registry.lookup(name) {
                None => Err(SchemaFault::UnresolvedNested),
                Some(schema) => Ok(
                    FieldSpec {
                        name: field.name.clone(),
                        kind: FieldKind::Nested { schema: schema.clone() },
                        optional,
                    },
                ),
            },
        },
    }
}

fn repeats_earlier(desc: &TypeDescription, i: usize) -> (r: bool)
    requires
        i < desc.fields@.len(),
    ensures
        r == desc@.repeats_earlier(i as int),
{
    let mut j: usize = 0;
    while j < i
        invariant
            j <= i,
            i < desc.fields@.len(),
            forall|k: int| 0 <= k < j ==> desc@.fields[k].name != desc@.fields[i as int].name,
        decreases i - j,
    {
        if desc.fields[j].name == desc.fields[i].name {
            assert(desc@.fields[j as int].name == desc@.fields[i as int].name);
            return true;
        }
        j = j + 1;
    }
    false
}

/// Builds the schema of a described type over the schemas registered for its
/// nested types.
///
/// The build fails on the first field, in declaration order, that repeats an
/// earlier name, that is nested without a registered schema, or whose default
/// literal does not fit its declared type.
pub fn build_schema(desc: &TypeDescription, registry: &SchemaRegistry) -> (r: Result<
    Schema,
    SchemaBuildError,
>)
    ensures
        match r {
            Ok(schema) => desc@.built(registry@) == Ok::<SchemaView, SchemaBuildErrorView>(
                schema@,
            ),
            Err(e) => desc@.built(registry@) == Err::<SchemaView, SchemaBuildErrorView>(e@),
        },
        registry_well_formed(registry@) && r is Ok ==> r->Ok_0@.well_formed(),
{
    let mut fields: Vec<FieldSpec> = Vec::new();
    let mut i: usize = 0;
    while i < desc.fields.len()
        invariant
            i <= desc.fields@.len(),
            fields@.len() == i,
            desc@.first_fault_from(registry@, 0) == desc@.first_fault_from(registry@, i as int),
            forall|j: int|
                0 <= j < i ==> desc@.fields[j].described(registry@) == Ok::<
                    FieldSpecView,
                    SchemaFault,
                >(#[trigger] fields@[j]@),
        decreases desc.fields@.len() - i,
    {
        let field = &desc.fields[i];
        if repeats_earlier(desc, i) {
            return Err(
                SchemaBuildError {
                    fault: SchemaFault::DuplicateField,
                    config: desc.name.clone(),
                    field: field.name.clone(),
                },
            );
        }
        match describe_field(field, registry) {
            Ok(spec) => {
                fields.push(spec);
            },
            Err(fault) => {
                return Err(
                    SchemaBuildError {
                        fault,
                        config: desc.name.clone(),
                        field: field.name.clone(),
                    },
                );
            },
        }
        i = i + 1;
    }
    let schema = Schema { name: desc.name.clone(), fields };
    proof {
        let built = desc@.built(registry@)->Ok_0;
        assert forall|j: int| 0 <= j < built.fields.len() implies schema@.fields[j]
            == built.fields[j] by {
            assert(schema@.fields[j] == fields@[j]@);
        }
        assert(schema@.fields =~= built.fields);
        if registry_well_formed(registry@) {
            lemma_built_well_formed(desc@, registry@);
        }
    }
    Ok(schema)
}

} // verus!
