//! The pieces that a grammar is written in: which relation a field links
//! by, how a field's value is read, and which definition a node holds.
pub mod value;
pub mod field_ref;
pub mod parse;
pub mod parser;
pub mod outcome;
pub mod steps;
pub mod valid;
pub mod laws;

use vstd::prelude::*;

use crate::ast::{ErrorView, ParseError};
use crate::models::{
    Version, ImportEntity, FileEntity, ServiceTemplateEntity, SubstitutionMappingEntity, RepositoryEntity, NodeEntity, DataEntity, ArtifactEntity, CapabilityEntity, InterfaceEntity, OperationEntity, NotificationEntity, RelationshipEntity, RequirementEntity, GroupEntity, PolicyEntity, PolicyTriggerEntity, ImplementationEntity, WorkflowEntity, WorkflowStepEntity, WorkflowDelegateActivityEntity, WorkflowInlineActivityEntity, WorkflowSetStateActivityEntity, WorkflowCallOperationActivityEntity, FunctionEntity, FunctionSignatureEntity, Entity, ToscaDefinitionsVersionRelation, ServiceTemplateRelation, RepositoryRelation, ProfileRelation, DescriptionRelation, NamespaceRelation, VersionRelation, ImportRelation, ImportTargetRelation, ImportUrlRelation, ImportFileRelation, ImportProfileRelation, ImportRepositoryRelation, ImportNamespaceRelation, TypeRelation, DefinitionRelation, OrderedDefinitionRelation, AssignmentRelation, OrderedAssignmentRelation, ValidationRelation, ValueRelation, MappingRelation, RequiredRelation, StatusRelation, DefaultRelation, ExternalSchemaRelation, MetadataRelation, SchemaRelation, KeySchemaRelation, EntrySchemaRelation, RootRelation, HasTypeRelation, DerivedFromRelation, SubstitutesTypeRelation, MimeTypeRelation, FileExtRelation, HasFileRelation, ChecksumRelation, ChecksumAlgorithmRelation, PrimaryArtifactRelation, DependencyArtifactRelation, ValidSourceNodeTypeRelation, ValidRelationshipTypeRelation, DirectiveRelation, MemberNodeTemplateRelation, MemberNodeTypeRelation, ValidCapabilityTypeRelation, ValidTargetNodeTypeRelation, TargetNodeRelation, TargetCapabilityRelation, SubstitutionMappingRelation, WorkflowActivityRelation, WorkflowRelation, OperationRelation, PolicyTriggerEventRelation, FunctionArgumentRelation, FunctionOptionalArgumentRelation, FunctionSignatureRelation, RepositoryUrlRelation, Relation, RelationView,
};
use crate::yaml::str_eq;

verus! {

/// The TOSCA versions that the grammar reads.
#[derive(Debug, PartialEq, Eq, Clone, Copy)]
pub enum ToscaVersion {
    V1_3,
    V2_0,
}

/// TOSCA 1.3: `tosca_definitions_version: tosca_simple_yaml_1_3`.
pub struct Tosca1_3;

/// TOSCA 2.0: `tosca_definitions_version: tosca_2_0`.
pub struct Tosca2_0;

impl Tosca1_3 {
    /// The value of `tosca_definitions_version` that selects this version.
    pub fn name() -> (s: &'static str)
        ensures
            s@ == version_name(ToscaVersion::V1_3),
    {
        "tosca_simple_yaml_1_3"
    }
}

impl Tosca2_0 {
    /// The value of `tosca_definitions_version` that selects this version.
    pub fn name() -> (s: &'static str)
        ensures
            s@ == version_name(ToscaVersion::V2_0),
    {
        "tosca_2_0"
    }
}

/// The value of `tosca_definitions_version` that selects `v`.
pub open spec fn version_name(v: ToscaVersion) -> Seq<char> {
    match v {
        ToscaVersion::V1_3 => "tosca_simple_yaml_1_3"@,
        ToscaVersion::V2_0 => "tosca_2_0"@,
    }
}

/// The definitions that the grammar knows. Those that end in `13` are the
/// TOSCA 1.3 forms of definitions that differ between the versions.
#[derive(Debug, PartialEq, Eq, Clone, Copy)]
pub enum DefKind {
    File,
    Import,
    ServiceTemplate,
    SubstitutionMapping,
    NodeType,
    NodeTemplate,
    DataType,
    Schema,
    Attribute,
    Property,
    Parameter,
    ArtifactType,
    Artifact,
    Implementation,
    CapabilityType,
    Capability,
    CapabilityAssignment,
    GroupType,
    Group,
    PolicyType,
    Policy,
    PolicyTrigger,
    InterfaceType,
    Interface,
    InterfaceAssignment,
    Operation,
    OperationAssignment,
    Notification,
    NotificationAssignment,
    RelationshipType,
    RelationshipTemplate,
    Relationship,
    RelationshipAssignment,
    Requirement,
    RequirementAssignment,
    Workflow,
    WorkflowStep,
    WorkflowActivity,
    WorkflowDelegateActivity,
    WorkflowInlineActivity,
    WorkflowSetStateActivity,
    WorkflowCallOperationActivity,
    FunctionSignature,
    Function,
    Repository,
    File13,
    Import13,
    Artifact13,
    Implementation13,
    RelationshipType13,
}

/// The definition that a version uses where the grammar names `k`.
pub open spec fn spec_slot(v: ToscaVersion, k: DefKind) -> DefKind {
    match v {
        ToscaVersion::V2_0 => k,
        ToscaVersion::V1_3 => match k {
            DefKind::File => DefKind::File13,
            DefKind::Import => DefKind::Import13,
            DefKind::Artifact => DefKind::Artifact13,
            DefKind::Implementation => DefKind::Implementation13,
            DefKind::RelationshipType => DefKind::RelationshipType13,
            _ => k,
        },
    }
}

/// The definition that a version uses where the grammar names `k`.
#[verifier::when_used_as_spec(spec_slot)]
pub fn slot(v: ToscaVersion, k: DefKind) -> (r: DefKind)
    ensures
        r == spec_slot(v, k),
{
    match v {
        ToscaVersion::V2_0 => k,
        ToscaVersion::V1_3 => match k {
            DefKind::File => DefKind::File13,
            DefKind::Import => DefKind::Import13,
            DefKind::Artifact => DefKind::Artifact13,
            DefKind::Implementation => DefKind::Implementation13,
            DefKind::RelationshipType => DefKind::RelationshipType13,
            _ => k,
        },
    }
}

/// How a field's value is read.
#[derive(Debug, PartialEq, Eq, Clone, Copy)]
pub enum ValueKind {
    /// A string, linked as it is.
    String,
    /// A string or null, linked as it is.
    NullableString,
    /// An integer, linked as it is.
    Int,
    /// A boolean, linked as it is.
    Bool,
    /// Any YAML value, linked as it is.
    Any,
    /// A status name, read into a status entity.
    Status,
    /// A definition, read into a new entity.
    Def(DefKind),
}


/// The key that a relation is made with: none, a name, a position, or both.
#[derive(Debug)]
pub enum RelKey {
    Unit,
    Name(String),
    Index(usize),
    Pair(String, usize),
}

/// The name a key carries, empty if none.
pub open spec fn key_name(key: RelKey) -> Seq<char> {
    match key {
        RelKey::Name(s) => s@,
        RelKey::Pair(s, _) => s@,
        _ => Seq::empty(),
    }
}

/// The position a key carries, 0 if none.
pub open spec fn key_index(key: RelKey) -> usize {
    match key {
        RelKey::Index(i) => i,
        RelKey::Pair(_, i) => i,
        _ => 0,
    }
}

/// The relations that a field can link by.
#[derive(Debug, PartialEq, Eq, Clone, Copy)]
pub enum RelKind {
    ToscaDefinitionsVersion,
    ServiceTemplate,
    Repository,
    Profile,
    Description,
    Namespace,
    Version,
    Import,
    ImportTarget,
    ImportUrl,
    ImportFile,
    ImportProfile,
    ImportRepository,
    ImportNamespace,
    Type,
    Definition,
    OrderedDefinition,
    Assignment,
    OrderedAssignment,
    Validation,
    Value,
    Mapping,
    Required,
    Status,
    Default,
    ExternalSchema,
    Metadata,
    Schema,
    KeySchema,
    EntrySchema,
    Root,
    HasType,
    DerivedFrom,
    SubstitutesType,
    MimeType,
    FileExt,
    HasFile,
    Checksum,
    ChecksumAlgorithm,
    PrimaryArtifact,
    DependencyArtifact,
    ValidSourceNodeType,
    ValidRelationshipType,
    Directive,
    MemberNodeTemplate,
    MemberNodeType,
    ValidCapabilityType,
    ValidTargetNodeType,
    TargetNode,
    TargetCapability,
    SubstitutionMapping,
    WorkflowActivity,
    Workflow,
    Operation,
    PolicyTriggerEvent,
    FunctionArgument,
    FunctionOptionalArgument,
    FunctionSignature,
    RepositoryUrl,
}

/// The relation of kind `k` made with `key`: a relation that carries a name
/// or a position takes the key's (empty or 0 where the key has none); the
/// others ignore the key.
pub open spec fn relation_view_for(k: RelKind, key: RelKey) -> RelationView {
    match k {
        RelKind::ToscaDefinitionsVersion => RelationView::ToscaDefinitionsVersion,
        RelKind::ServiceTemplate => RelationView::ServiceTemplate,
        RelKind::Repository => RelationView::Repository,
        RelKind::Profile => RelationView::Profile,
        RelKind::Description => RelationView::Description,
        RelKind::Namespace => RelationView::Namespace,
        RelKind::Version => RelationView::Version,
        RelKind::Import => RelationView::Import(key_index(key)),
        RelKind::ImportTarget => RelationView::ImportTarget,
        RelKind::ImportUrl => RelationView::ImportUrl,
        RelKind::ImportFile => RelationView::ImportFile,
        RelKind::ImportProfile => RelationView::ImportProfile,
        RelKind::ImportRepository => RelationView::ImportRepository,
        RelKind::ImportNamespace => RelationView::ImportNamespace,
        RelKind::Type => RelationView::Type(key_name(key)),
        RelKind::Definition => RelationView::Definition(key_name(key)),
        RelKind::OrderedDefinition => RelationView::OrderedDefinition(key_name(key), key_index(key)),
        RelKind::Assignment => RelationView::Assignment(key_name(key)),
        RelKind::OrderedAssignment => RelationView::OrderedAssignment(key_name(key), key_index(key)),
        RelKind::Validation => RelationView::Validation,
        RelKind::Value => RelationView::Value,
        RelKind::Mapping => RelationView::Mapping,
        RelKind::Required => RelationView::Required,
        RelKind::Status => RelationView::Status,
        RelKind::Default => RelationView::Default,
        RelKind::ExternalSchema => RelationView::ExternalSchema,
        RelKind::Metadata => RelationView::Metadata(key_name(key)),
        RelKind::Schema => RelationView::Schema,
        RelKind::KeySchema => RelationView::KeySchema,
        RelKind::EntrySchema => RelationView::EntrySchema,
        RelKind::Root => RelationView::Root,
        RelKind::HasType => RelationView::HasType,
        RelKind::DerivedFrom => RelationView::DerivedFrom,
        RelKind::SubstitutesType => RelationView::SubstitutesType,
        RelKind::MimeType => RelationView::MimeType,
        RelKind::FileExt => RelationView::FileExt(key_index(key)),
        RelKind::HasFile => RelationView::HasFile,
        RelKind::Checksum => RelationView::Checksum,
        RelKind::ChecksumAlgorithm => RelationView::ChecksumAlgorithm,
        RelKind::PrimaryArtifact => RelationView::PrimaryArtifact,
        RelKind::DependencyArtifact => RelationView::DependencyArtifact(key_index(key)),
        RelKind::ValidSourceNodeType => RelationView::ValidSourceNodeType,
        RelKind::ValidRelationshipType => RelationView::ValidRelationshipType,
        RelKind::Directive => RelationView::Directive(key_index(key)),
        RelKind::MemberNodeTemplate => RelationView::MemberNodeTemplate,
        RelKind::MemberNodeType => RelationView::MemberNodeType,
        RelKind::ValidCapabilityType => RelationView::ValidCapabilityType,
        RelKind::ValidTargetNodeType => RelationView::ValidTargetNodeType,
        RelKind::TargetNode => RelationView::TargetNode,
        RelKind::TargetCapability => RelationView::TargetCapability,
        RelKind::SubstitutionMapping => RelationView::SubstitutionMapping,
        RelKind::WorkflowActivity => RelationView::WorkflowActivity(key_index(key)),
        RelKind::Workflow => RelationView::Workflow,
        RelKind::Operation => RelationView::Operation,
        RelKind::PolicyTriggerEvent => RelationView::PolicyTriggerEvent,
        RelKind::FunctionArgument => RelationView::FunctionArgument(key_index(key)),
        RelKind::FunctionOptionalArgument => RelationView::FunctionOptionalArgument(key_index(key)),
        RelKind::FunctionSignature => RelationView::FunctionSignature(key_index(key)),
        RelKind::RepositoryUrl => RelationView::RepositoryUrl,
    }
}

/// The name of a key, as an owned string.
fn key_string(key: &RelKey) -> (s: String)
    ensures
        s@ == key_name(*key),
{
    match key {
        RelKey::Name(s) => s.clone(),
        RelKey::Pair(s, _) => s.clone(),
        _ => String::new(),
    }
}

/// The position of a key.
fn key_position(key: &RelKey) -> (i: usize)
    ensures
        i == key_index(*key),
{
    match key {
        RelKey::Index(i) => *i,
        RelKey::Pair(_, i) => *i,
        _ => 0,
    }
}

/// Makes the relation of kind `k` with `key`.
pub fn make_relation(k: RelKind, key: &RelKey) -> (r: Relation)
    ensures
        r@ == relation_view_for(k, *key),
{
    match k {
        RelKind::ToscaDefinitionsVersion => Relation::ToscaDefinitionsVersion(ToscaDefinitionsVersionRelation),
        RelKind::ServiceTemplate => Relation::ServiceTemplate(ServiceTemplateRelation),
        RelKind::Repository => Relation::Repository(RepositoryRelation),
        RelKind::Profile => Relation::Profile(ProfileRelation),
        RelKind::Description => Relation::Description(DescriptionRelation),
        RelKind::Namespace => Relation::Namespace(NamespaceRelation),
        RelKind::Version => Relation::Version(VersionRelation),
        RelKind::Import => Relation::Import(ImportRelation(key_position(key))),
        RelKind::ImportTarget => Relation::ImportTarget(ImportTargetRelation),
        RelKind::ImportUrl => Relation::ImportUrl(ImportUrlRelation),
        RelKind::ImportFile => Relation::ImportFile(ImportFileRelation),
        RelKind::ImportProfile => Relation::ImportProfile(ImportProfileRelation),
        RelKind::ImportRepository => Relation::ImportRepository(ImportRepositoryRelation),
        RelKind::ImportNamespace => Relation::ImportNamespace(ImportNamespaceRelation),
        RelKind::Type => Relation::Type(TypeRelation(key_string(key))),
        RelKind::Definition => Relation::Definition(DefinitionRelation(key_string(key))),
        RelKind::OrderedDefinition => Relation::OrderedDefinition(OrderedDefinitionRelation((key_string(key), key_position(key)))),
        RelKind::Assignment => Relation::Assignment(AssignmentRelation(key_string(key))),
        RelKind::OrderedAssignment => Relation::OrderedAssignment(OrderedAssignmentRelation((key_string(key), key_position(key)))),
        RelKind::Validation => Relation::Validation(ValidationRelation),
        RelKind::Value => Relation::Value(ValueRelation),
        RelKind::Mapping => Relation::Mapping(MappingRelation),
        RelKind::Required => Relation::Required(RequiredRelation),
        RelKind::Status => Relation::Status(StatusRelation),
        RelKind::Default => Relation::Default(DefaultRelation),
        RelKind::ExternalSchema => Relation::ExternalSchema(ExternalSchemaRelation),
        RelKind::Metadata => Relation::Metadata(MetadataRelation(key_string(key))),
        RelKind::Schema => Relation::Schema(SchemaRelation),
        RelKind::KeySchema => Relation::KeySchema(KeySchemaRelation),
        RelKind::EntrySchema => Relation::EntrySchema(EntrySchemaRelation),
        RelKind::Root => Relation::Root(RootRelation),
        RelKind::HasType => Relation::HasType(HasTypeRelation),
        RelKind::DerivedFrom => Relation::DerivedFrom(DerivedFromRelation),
        RelKind::SubstitutesType => Relation::SubstitutesType(SubstitutesTypeRelation),
        RelKind::MimeType => Relation::MimeType(MimeTypeRelation),
        RelKind::FileExt => Relation::FileExt(FileExtRelation(key_position(key))),
        RelKind::HasFile => Relation::HasFile(HasFileRelation),
        RelKind::Checksum => Relation::Checksum(ChecksumRelation),
        RelKind::ChecksumAlgorithm => Relation::ChecksumAlgorithm(ChecksumAlgorithmRelation),
        RelKind::PrimaryArtifact => Relation::PrimaryArtifact(PrimaryArtifactRelation),
        RelKind::DependencyArtifact => Relation::DependencyArtifact(DependencyArtifactRelation(key_position(key))),
        RelKind::ValidSourceNodeType => Relation::ValidSourceNodeType(ValidSourceNodeTypeRelation),
        RelKind::ValidRelationshipType => Relation::ValidRelationshipType(ValidRelationshipTypeRelation),
        RelKind::Directive => Relation::Directive(DirectiveRelation(key_position(key))),
        RelKind::MemberNodeTemplate => Relation::MemberNodeTemplate(MemberNodeTemplateRelation),
        RelKind::MemberNodeType => Relation::MemberNodeType(MemberNodeTypeRelation),
        RelKind::ValidCapabilityType => Relation::ValidCapabilityType(ValidCapabilityTypeRelation),
        RelKind::ValidTargetNodeType => Relation::ValidTargetNodeType(ValidTargetNodeTypeRelation),
        RelKind::TargetNode => Relation::TargetNode(TargetNodeRelation),
        RelKind::TargetCapability => Relation::TargetCapability(TargetCapabilityRelation),
        RelKind::SubstitutionMapping => Relation::SubstitutionMapping(SubstitutionMappingRelation),
        RelKind::WorkflowActivity => Relation::WorkflowActivity(WorkflowActivityRelation(key_position(key))),
        RelKind::Workflow => Relation::Workflow(WorkflowRelation),
        RelKind::Operation => Relation::Operation(OperationRelation),
        RelKind::PolicyTriggerEvent => Relation::PolicyTriggerEvent(PolicyTriggerEventRelation),
        RelKind::FunctionArgument => Relation::FunctionArgument(FunctionArgumentRelation(key_position(key))),
        RelKind::FunctionOptionalArgument => Relation::FunctionOptionalArgument(FunctionOptionalArgumentRelation(key_position(key))),
        RelKind::FunctionSignature => Relation::FunctionSignature(FunctionSignatureRelation(key_position(key))),
        RelKind::RepositoryUrl => Relation::RepositoryUrl(RepositoryUrlRelation),
    }
}

/// How a field of a definition is read. Each form names the relation that
/// links what it reads to the definition.
#[derive(Debug, PartialEq, Eq, Clone, Copy)]
pub enum FieldRule {
    /// A known field that is not read.
    Ignore,
    /// One value.
    Field(RelKind, ValueKind),
    /// A map of values, linked by their keys.
    Collection(RelKind, ValueKind),
    /// A list of values, linked by their positions.
    List(RelKind, ValueKind),
    /// A list of one-key maps, linked by key and position.
    KeyedList(RelKind, ValueKind),
    /// A reference to a type of the given entity.
    TypeRef(Entity, RelKind),
    /// A list of references to types.
    TypeRefList(Entity, RelKind),
    /// A reference to a definition of an entity (the second) inside an
    /// entity (the first).
    DefRef(Entity, Entity, RelKind),
    /// A list of references to definitions.
    DefRefList(Entity, Entity, RelKind),
    /// An artifact definition, or a reference to one.
    ArtifactRef(RelKind),
    /// A list of artifact definitions or references.
    ArtifactRefList(RelKind),
}

/// The entity that a definition of kind `k` creates.
pub open spec fn entity_of(k: DefKind) -> Entity {
    match k {
        DefKind::File => Entity::File(FileEntity),
        DefKind::Import => Entity::Import(ImportEntity),
        DefKind::ServiceTemplate => Entity::ServiceTemplate(ServiceTemplateEntity),
        DefKind::SubstitutionMapping => Entity::SubstitutionMapping(SubstitutionMappingEntity),
        DefKind::NodeType => Entity::Node(NodeEntity),
        DefKind::NodeTemplate => Entity::Node(NodeEntity),
        DefKind::DataType => Entity::Data(DataEntity),
        DefKind::Schema => Entity::Data(DataEntity),
        DefKind::Attribute => Entity::Data(DataEntity),
        DefKind::Property => Entity::Data(DataEntity),
        DefKind::Parameter => Entity::Data(DataEntity),
        DefKind::ArtifactType => Entity::Artifact(ArtifactEntity),
        DefKind::Artifact => Entity::Artifact(ArtifactEntity),
        DefKind::Implementation => Entity::Implementation(ImplementationEntity),
        DefKind::CapabilityType => Entity::Capability(CapabilityEntity),
        DefKind::Capability => Entity::Capability(CapabilityEntity),
        DefKind::CapabilityAssignment => Entity::Capability(CapabilityEntity),
        DefKind::GroupType => Entity::Group(GroupEntity),
        DefKind::Group => Entity::Group(GroupEntity),
        DefKind::PolicyType => Entity::Policy(PolicyEntity),
        DefKind::Policy => Entity::Policy(PolicyEntity),
        DefKind::PolicyTrigger => Entity::PolicyTrigger(PolicyTriggerEntity),
        DefKind::InterfaceType => Entity::Interface(InterfaceEntity),
        DefKind::Interface => Entity::Interface(InterfaceEntity),
        DefKind::InterfaceAssignment => Entity::Interface(InterfaceEntity),
        DefKind::Operation => Entity::Operation(OperationEntity),
        DefKind::OperationAssignment => Entity::Operation(OperationEntity),
        DefKind::Notification => Entity::Notification(NotificationEntity),
        DefKind::NotificationAssignment => Entity::Notification(NotificationEntity),
        DefKind::RelationshipType => Entity::Relationship(RelationshipEntity),
        DefKind::RelationshipTemplate => Entity::Relationship(RelationshipEntity),
        DefKind::Relationship => Entity::Relationship(RelationshipEntity),
        DefKind::RelationshipAssignment => Entity::Relationship(RelationshipEntity),
        DefKind::Requirement => Entity::Requirement(RequirementEntity),
        DefKind::RequirementAssignment => Entity::Requirement(RequirementEntity),
        DefKind::Workflow => Entity::Workflow(WorkflowEntity),
        DefKind::WorkflowStep => Entity::WorkflowStep(WorkflowStepEntity),
        DefKind::WorkflowActivity => Entity::WorkflowDelegateActivity(WorkflowDelegateActivityEntity),
        DefKind::WorkflowDelegateActivity => Entity::WorkflowDelegateActivity(WorkflowDelegateActivityEntity),
        DefKind::WorkflowInlineActivity => Entity::WorkflowInlineActivity(WorkflowInlineActivityEntity),
        DefKind::WorkflowSetStateActivity => Entity::WorkflowSetStateActivity(WorkflowSetStateActivityEntity),
        DefKind::WorkflowCallOperationActivity => Entity::WorkflowCallOperationActivity(WorkflowCallOperationActivityEntity),
        DefKind::FunctionSignature => Entity::FunctionSignature(FunctionSignatureEntity),
        DefKind::Function => Entity::Function(FunctionEntity),
        DefKind::Repository => Entity::Repository(RepositoryEntity),
        DefKind::File13 => Entity::File(FileEntity),
        DefKind::Import13 => Entity::Import(ImportEntity),
        DefKind::Artifact13 => Entity::Artifact(ArtifactEntity),
        DefKind::Implementation13 => Entity::Implementation(ImplementationEntity),
        DefKind::RelationshipType13 => Entity::Relationship(RelationshipEntity),
    }
}

/// The entity that a definition of kind `k` creates.
#[verifier::when_used_as_spec(entity_of)]
pub fn self_entity(k: DefKind) -> (e: Entity)
    ensures
        e == entity_of(k),
{
    match k {
        DefKind::File => Entity::File(FileEntity),
        DefKind::Import => Entity::Import(ImportEntity),
        DefKind::ServiceTemplate => Entity::ServiceTemplate(ServiceTemplateEntity),
        DefKind::SubstitutionMapping => Entity::SubstitutionMapping(SubstitutionMappingEntity),
        DefKind::NodeType => Entity::Node(NodeEntity),
        DefKind::NodeTemplate => Entity::Node(NodeEntity),
        DefKind::DataType => Entity::Data(DataEntity),
        DefKind::Schema => Entity::Data(DataEntity),
        DefKind::Attribute => Entity::Data(DataEntity),
        DefKind::Property => Entity::Data(DataEntity),
        DefKind::Parameter => Entity::Data(DataEntity),
        DefKind::ArtifactType => Entity::Artifact(ArtifactEntity),
        DefKind::Artifact => Entity::Artifact(ArtifactEntity),
        DefKind::Implementation => Entity::Implementation(ImplementationEntity),
        DefKind::CapabilityType => Entity::Capability(CapabilityEntity),
        DefKind::Capability => Entity::Capability(CapabilityEntity),
        DefKind::CapabilityAssignment => Entity::Capability(CapabilityEntity),
        DefKind::GroupType => Entity::Group(GroupEntity),
        DefKind::Group => Entity::Group(GroupEntity),
        DefKind::PolicyType => Entity::Policy(PolicyEntity),
        DefKind::Policy => Entity::Policy(PolicyEntity),
        DefKind::PolicyTrigger => Entity::PolicyTrigger(PolicyTriggerEntity),
        DefKind::InterfaceType => Entity::Interface(InterfaceEntity),
        DefKind::Interface => Entity::Interface(InterfaceEntity),
        DefKind::InterfaceAssignment => Entity::Interface(InterfaceEntity),
        DefKind::Operation => Entity::Operation(OperationEntity),
        DefKind::OperationAssignment => Entity::Operation(OperationEntity),
        DefKind::Notification => Entity::Notification(NotificationEntity),
        DefKind::NotificationAssignment => Entity::Notification(NotificationEntity),
        DefKind::RelationshipType => Entity::Relationship(RelationshipEntity),
        DefKind::RelationshipTemplate => Entity::Relationship(RelationshipEntity),
        DefKind::Relationship => Entity::Relationship(RelationshipEntity),
        DefKind::RelationshipAssignment => Entity::Relationship(RelationshipEntity),
        DefKind::Requirement => Entity::Requirement(RequirementEntity),
        DefKind::RequirementAssignment => Entity::Requirement(RequirementEntity),
        DefKind::Workflow => Entity::Workflow(WorkflowEntity),
        DefKind::WorkflowStep => Entity::WorkflowStep(WorkflowStepEntity),
        DefKind::WorkflowActivity => Entity::WorkflowDelegateActivity(WorkflowDelegateActivityEntity),
        DefKind::WorkflowDelegateActivity => Entity::WorkflowDelegateActivity(WorkflowDelegateActivityEntity),
        DefKind::WorkflowInlineActivity => Entity::WorkflowInlineActivity(WorkflowInlineActivityEntity),
        DefKind::WorkflowSetStateActivity => Entity::WorkflowSetStateActivity(WorkflowSetStateActivityEntity),
        DefKind::WorkflowCallOperationActivity => Entity::WorkflowCallOperationActivity(WorkflowCallOperationActivityEntity),
        DefKind::FunctionSignature => Entity::FunctionSignature(FunctionSignatureEntity),
        DefKind::Function => Entity::Function(FunctionEntity),
        DefKind::Repository => Entity::Repository(RepositoryEntity),
        DefKind::File13 => Entity::File(FileEntity),
        DefKind::Import13 => Entity::Import(ImportEntity),
        DefKind::Artifact13 => Entity::Artifact(ArtifactEntity),
        DefKind::Implementation13 => Entity::Implementation(ImplementationEntity),
        DefKind::RelationshipType13 => Entity::Relationship(RelationshipEntity),
    }
}

/// The rule by which a definition of kind `k` reads its field `name`, under
/// version `v`; `None` for a field that the definition does not have.
pub open spec fn schema_rule(v: ToscaVersion, k: DefKind, name: Seq<char>) -> Option<FieldRule> {
    match k {
        DefKind::File => if name == "tosca_definitions_version"@ { Some(FieldRule::Ignore) } else if name == "dsl_definitions"@ { Some(FieldRule::Ignore) } else if name == "profile"@ { Some(FieldRule::Field(RelKind::Profile, ValueKind::String)) } else if name == "metadata"@ { Some(FieldRule::Collection(RelKind::Metadata, ValueKind::Any)) } else if name == "description"@ { Some(FieldRule::Field(RelKind::Description, ValueKind::String)) } else if name == "imports"@ { Some(FieldRule::List(RelKind::Import, ValueKind::Def(slot(v, DefKind::Import)))) } else if name == "service_template"@ { Some(FieldRule::Field(RelKind::ServiceTemplate, ValueKind::Def(slot(v, DefKind::ServiceTemplate)))) } else if name == "node_types"@ { Some(FieldRule::Collection(RelKind::Type, ValueKind::Def(slot(v, DefKind::NodeType)))) } else if name == "data_types"@ { Some(FieldRule::Collection(RelKind::Type, ValueKind::Def(slot(v, DefKind::DataType)))) } else if name == "artifact_types"@ { Some(FieldRule::Collection(RelKind::Type, ValueKind::Def(slot(v, DefKind::ArtifactType)))) } else if name == "capability_types"@ { Some(FieldRule::Collection(RelKind::Type, ValueKind::Def(slot(v, DefKind::CapabilityType)))) } else if name == "relationship_types"@ { Some(FieldRule::Collection(RelKind::Type, ValueKind::Def(slot(v, DefKind::RelationshipType)))) } else if name == "group_types"@ { Some(FieldRule::Collection(RelKind::Type, ValueKind::Def(slot(v, DefKind::GroupType)))) } else if name == "policy_types"@ { Some(FieldRule::Collection(RelKind::Type, ValueKind::Def(slot(v, DefKind::PolicyType)))) } else if name == "interface_types"@ { Some(FieldRule::Collection(RelKind::Type, ValueKind::Def(slot(v, DefKind::InterfaceType)))) } else { None },
        DefKind::Import => if name == "url"@ { Some(FieldRule::Field(RelKind::ImportUrl, ValueKind::String)) } else if name == "profile"@ { Some(FieldRule::Field(RelKind::ImportProfile, ValueKind::String)) } else if name == "repository"@ { Some(FieldRule::Field(RelKind::ImportRepository, ValueKind::String)) } else if name == "namespace"@ { Some(FieldRule::Field(RelKind::ImportNamespace, ValueKind::String)) } else { None },
        DefKind::ServiceTemplate => if name == "description"@ { Some(FieldRule::Field(RelKind::Description, ValueKind::String)) } else if name == "metadata"@ { Some(FieldRule::Collection(RelKind::Metadata, ValueKind::Any)) } else if name == "inputs"@ { Some(FieldRule::Collection(RelKind::Definition, ValueKind::Def(slot(v, DefKind::Parameter)))) } else if name == "outputs"@ { Some(FieldRule::Collection(RelKind::Definition, ValueKind::Def(slot(v, DefKind::Parameter)))) } else if name == "node_templates"@ { Some(FieldRule::Collection(RelKind::Definition, ValueKind::Def(slot(v, DefKind::NodeTemplate)))) } else if name == "relationship_templates"@ { Some(FieldRule::Collection(RelKind::Definition, ValueKind::Def(slot(v, DefKind::RelationshipTemplate)))) } else if name == "groups"@ { Some(FieldRule::Collection(RelKind::Definition, ValueKind::Def(slot(v, DefKind::Group)))) } else if name == "workflows"@ { Some(FieldRule::Collection(RelKind::Definition, ValueKind::Def(slot(v, DefKind::Workflow)))) } else if name == "policies"@ { Some(FieldRule::Ignore) } else if name == "substitution_mappings"@ { Some(FieldRule::Field(RelKind::SubstitutionMapping, ValueKind::Def(slot(v, DefKind::SubstitutionMapping)))) } else { None },
        DefKind::SubstitutionMapping => if name == "node_type"@ { Some(FieldRule::TypeRef(Entity::Node(NodeEntity), RelKind::SubstitutesType)) } else if name == "substitution_filter"@ { Some(FieldRule::Ignore) } else if name == "properties"@ { Some(FieldRule::Collection(RelKind::Definition, ValueKind::Any)) } else if name == "attributes"@ { Some(FieldRule::Collection(RelKind::Definition, ValueKind::Any)) } else if name == "capabilities"@ { Some(FieldRule::Collection(RelKind::Definition, ValueKind::Any)) } else if name == "requirements"@ { Some(FieldRule::KeyedList(RelKind::OrderedDefinition, ValueKind::Any)) } else if name == "interfaces"@ { Some(FieldRule::Collection(RelKind::Definition, ValueKind::Any)) } else { None },
        DefKind::NodeType => if name == "derived_from"@ { Some(FieldRule::TypeRef(Entity::Node(NodeEntity), RelKind::DerivedFrom)) } else if name == "version"@ { Some(FieldRule::Field(RelKind::Version, ValueKind::String)) } else if name == "metadata"@ { Some(FieldRule::Collection(RelKind::Metadata, ValueKind::Any)) } else if name == "description"@ { Some(FieldRule::Field(RelKind::Description, ValueKind::String)) } else if name == "properties"@ { Some(FieldRule::Collection(RelKind::Definition, ValueKind::Def(slot(v, DefKind::Property)))) } else if name == "attributes"@ { Some(FieldRule::Collection(RelKind::Definition, ValueKind::Def(slot(v, DefKind::Attribute)))) } else if name == "capabilities"@ { Some(FieldRule::Collection(RelKind::Definition, ValueKind::Def(slot(v, DefKind::Capability)))) } else if name == "requirements"@ { Some(FieldRule::KeyedList(RelKind::OrderedDefinition, ValueKind::Def(slot(v, DefKind::Requirement)))) } else if name == "interfaces"@ { Some(FieldRule::Collection(RelKind::Definition, ValueKind::Def(slot(v, DefKind::Interface)))) } else if name == "artifacts"@ { Some(FieldRule::Collection(RelKind::Definition, ValueKind::Def(slot(v, DefKind::Artifact)))) } else { None },
        DefKind::NodeTemplate => if name == "type"@ { Some(FieldRule::TypeRef(Entity::Node(NodeEntity), RelKind::HasType)) } else if name == "description"@ { Some(FieldRule::Field(RelKind::Description, ValueKind::String)) } else if name == "metadata"@ { Some(FieldRule::Collection(RelKind::Metadata, ValueKind::Any)) } else if name == "directives"@ { Some(FieldRule::List(RelKind::Directive, ValueKind::String)) } else if name == "properties"@ { Some(FieldRule::Collection(RelKind::Assignment, ValueKind::Any)) } else if name == "attributes"@ { Some(FieldRule::Collection(RelKind::Assignment, ValueKind::Any)) } else if name == "capabilities"@ { Some(FieldRule::Collection(RelKind::Assignment, ValueKind::Def(slot(v, DefKind::CapabilityAssignment)))) } else if name == "requirements"@ { Some(FieldRule::KeyedList(RelKind::OrderedAssignment, ValueKind::Def(slot(v, DefKind::RequirementAssignment)))) } else if name == "interfaces"@ { Some(FieldRule::Collection(RelKind::Assignment, ValueKind::Def(slot(v, DefKind::InterfaceAssignment)))) } else if name == "artifacts"@ { Some(FieldRule::Collection(RelKind::Definition, ValueKind::Def(slot(v, DefKind::Artifact)))) } else if name == "count"@ { Some(FieldRule::Ignore) } else if name == "node_filter"@ { Some(FieldRule::Ignore) } else if name == "copy"@ { Some(FieldRule::Ignore) } else { None },
        DefKind::DataType => if name == "derived_from"@ { Some(FieldRule::TypeRef(Entity::Data(DataEntity), RelKind::DerivedFrom)) } else if name == "version"@ { Some(FieldRule::Field(RelKind::Version, ValueKind::String)) } else if name == "metadata"@ { Some(FieldRule::Collection(RelKind::Metadata, ValueKind::String)) } else if name == "description"@ { Some(FieldRule::Field(RelKind::Description, ValueKind::String)) } else if name == "validation"@ { Some(FieldRule::Field(RelKind::Validation, ValueKind::Any)) } else if name == "properties"@ { Some(FieldRule::Collection(RelKind::Definition, ValueKind::Def(slot(v, DefKind::Property)))) } else if name == "key_schema"@ { Some(FieldRule::Field(RelKind::KeySchema, ValueKind::Def(slot(v, DefKind::Schema)))) } else if name == "entry_schema"@ { Some(FieldRule::Field(RelKind::EntrySchema, ValueKind::Def(slot(v, DefKind::Schema)))) } else { None },
        DefKind::Schema => if name == "type"@ { Some(FieldRule::TypeRef(Entity::Data(DataEntity), RelKind::HasType)) } else if name == "description"@ { Some(FieldRule::Field(RelKind::Description, ValueKind::String)) } else if name == "validation"@ { Some(FieldRule::Field(RelKind::Validation, ValueKind::Any)) } else if name == "key_schema"@ { Some(FieldRule::Field(RelKind::KeySchema, ValueKind::Def(slot(v, DefKind::Schema)))) } else if name == "entry_schema"@ { Some(FieldRule::Field(RelKind::EntrySchema, ValueKind::Def(slot(v, DefKind::Schema)))) } else { None },
        DefKind::Attribute => if name == "type"@ { Some(FieldRule::TypeRef(Entity::Data(DataEntity), RelKind::HasType)) } else if name == "description"@ { Some(FieldRule::Field(RelKind::Description, ValueKind::String)) } else if name == "default"@ { Some(FieldRule::Field(RelKind::Default, ValueKind::Any)) } else if name == "status"@ { Some(FieldRule::Field(RelKind::Default, ValueKind::Status)) } else if name == "validation"@ { Some(FieldRule::Field(RelKind::Validation, ValueKind::Any)) } else if name == "key_schema"@ { Some(FieldRule::Field(RelKind::KeySchema, ValueKind::Def(slot(v, DefKind::Schema)))) } else if name == "entry_schema"@ { Some(FieldRule::Field(RelKind::EntrySchema, ValueKind::Def(slot(v, DefKind::Schema)))) } else if name == "metadata"@ { Some(FieldRule::Collection(RelKind::Metadata, ValueKind::String)) } else { None },
        DefKind::Property => if name == "type"@ { Some(FieldRule::TypeRef(Entity::Data(DataEntity), RelKind::HasType)) } else if name == "description"@ { Some(FieldRule::Field(RelKind::Description, ValueKind::String)) } else if name == "required"@ { Some(FieldRule::Field(RelKind::Required, ValueKind::Bool)) } else if name == "default"@ { Some(FieldRule::Field(RelKind::Default, ValueKind::Any)) } else if name == "status"@ { Some(FieldRule::Field(RelKind::Default, ValueKind::Status)) } else if name == "validation"@ { Some(FieldRule::Field(RelKind::Validation, ValueKind::Any)) } else if name == "value"@ { Some(FieldRule::Field(RelKind::Value, ValueKind::Any)) } else if name == "key_schema"@ { Some(FieldRule::Field(RelKind::KeySchema, ValueKind::Def(slot(v, DefKind::Schema)))) } else if name == "entry_schema"@ { Some(FieldRule::Field(RelKind::EntrySchema, ValueKind::Def(slot(v, DefKind::Schema)))) } else if name == "external-schema"@ { Some(FieldRule::Field(RelKind::ExternalSchema, ValueKind::String)) } else if name == "metadata"@ { Some(FieldRule::Collection(RelKind::Metadata, ValueKind::String)) } else { None },
        DefKind::Parameter => if name == "type"@ { Some(FieldRule::TypeRef(Entity::Data(DataEntity), RelKind::HasType)) } else if name == "description"@ { Some(FieldRule::Field(RelKind::Description, ValueKind::String)) } else if name == "required"@ { Some(FieldRule::Field(RelKind::Required, ValueKind::Bool)) } else if name == "default"@ { Some(FieldRule::Field(RelKind::Default, ValueKind::Any)) } else if name == "status"@ { Some(FieldRule::Field(RelKind::Default, ValueKind::Status)) } else if name == "validation"@ { Some(FieldRule::Field(RelKind::Validation, ValueKind::Any)) } else if name == "value"@ { Some(FieldRule::Field(RelKind::Value, ValueKind::Any)) } else if name == "mapping"@ { Some(FieldRule::Field(RelKind::Mapping, ValueKind::Any)) } else if name == "key_schema"@ { Some(FieldRule::Field(RelKind::KeySchema, ValueKind::Def(slot(v, DefKind::Schema)))) } else if name == "entry_schema"@ { Some(FieldRule::Field(RelKind::EntrySchema, ValueKind::Def(slot(v, DefKind::Schema)))) } else if name == "external-schema"@ { Some(FieldRule::Field(RelKind::ExternalSchema, ValueKind::String)) } else if name == "metadata"@ { Some(FieldRule::Collection(RelKind::Metadata, ValueKind::String)) } else { None },
        DefKind::ArtifactType => if name == "derived_from"@ { Some(FieldRule::TypeRef(Entity::Artifact(ArtifactEntity), RelKind::DerivedFrom)) } else if name == "version"@ { Some(FieldRule::Field(RelKind::Version, ValueKind::String)) } else if name == "metadata"@ { Some(FieldRule::Collection(RelKind::Metadata, ValueKind::Any)) } else if name == "description"@ { Some(FieldRule::Field(RelKind::Description, ValueKind::String)) } else if name == "mime_type"@ { Some(FieldRule::Field(RelKind::MimeType, ValueKind::String)) } else if name == "file_ext"@ { Some(FieldRule::List(RelKind::FileExt, ValueKind::String)) } else if name == "properties"@ { Some(FieldRule::Collection(RelKind::Definition, ValueKind::Def(slot(v, DefKind::Property)))) } else { None },
        DefKind::Artifact => if name == "type"@ { Some(FieldRule::TypeRef(Entity::Artifact(ArtifactEntity), RelKind::HasType)) } else if name == "file"@ { Some(FieldRule::Field(RelKind::HasFile, ValueKind::String)) } else if name == "repository"@ { Some(FieldRule::Field(RelKind::Repository, ValueKind::String)) } else if name == "description"@ { Some(FieldRule::Field(RelKind::Description, ValueKind::String)) } else if name == "metadata"@ { Some(FieldRule::Collection(RelKind::Metadata, ValueKind::Any)) } else if name == "artifact_version"@ { Some(FieldRule::Field(RelKind::Version, ValueKind::String)) } else if name == "checksum"@ { Some(FieldRule::Field(RelKind::Checksum, ValueKind::String)) } else if name == "checksum_algorithm"@ { Some(FieldRule::Field(RelKind::ChecksumAlgorithm, ValueKind::String)) } else if name == "properties"@ { Some(FieldRule::Collection(RelKind::Assignment, ValueKind::Any)) } else { None },
        DefKind::Implementation => if name == "primary"@ { Some(FieldRule::ArtifactRef(RelKind::PrimaryArtifact)) } else if name == "dependencies"@ { Some(FieldRule::ArtifactRefList(RelKind::DependencyArtifact)) } else { None },
        DefKind::CapabilityType => if name == "derived_from"@ { Some(FieldRule::TypeRef(Entity::Capability(CapabilityEntity), RelKind::DerivedFrom)) } else if name == "version"@ { Some(FieldRule::Field(RelKind::Version, ValueKind::String)) } else if name == "metadata"@ { Some(FieldRule::Collection(RelKind::Metadata, ValueKind::Any)) } else if name == "description"@ { Some(FieldRule::Field(RelKind::Description, ValueKind::String)) } else if name == "properties"@ { Some(FieldRule::Collection(RelKind::Definition, ValueKind::Def(slot(v, DefKind::Property)))) } else if name == "attributes"@ { Some(FieldRule::Collection(RelKind::Definition, ValueKind::Def(slot(v, DefKind::Attribute)))) } else if name == "valid_source_node_types"@ { Some(FieldRule::TypeRefList(Entity::Node(NodeEntity), RelKind::ValidSourceNodeType)) } else if name == "valid_relationship_types"@ { Some(FieldRule::TypeRefList(Entity::Relationship(RelationshipEntity), RelKind::ValidRelationshipType)) } else { None },
        DefKind::Capability => if name == "type"@ { Some(FieldRule::TypeRef(Entity::Capability(CapabilityEntity), RelKind::HasType)) } else if name == "description"@ { Some(FieldRule::Field(RelKind::Description, ValueKind::String)) } else if name == "metadata"@ { Some(FieldRule::Collection(RelKind::Metadata, ValueKind::Any)) } else if name == "properties"@ { Some(FieldRule::Collection(RelKind::Definition, ValueKind::Def(slot(v, DefKind::Property)))) } else if name == "attributes"@ { Some(FieldRule::Collection(RelKind::Definition, ValueKind::Def(slot(v, DefKind::Attribute)))) } else if name == "valid_source_node_types"@ { Some(FieldRule::TypeRefList(Entity::Node(NodeEntity), RelKind::ValidSourceNodeType)) } else if name == "valid_relationship_types"@ { Some(FieldRule::TypeRefList(Entity::Relationship(RelationshipEntity), RelKind::ValidRelationshipType)) } else { None },
        DefKind::CapabilityAssignment => if name == "directives"@ { Some(FieldRule::List(RelKind::Directive, ValueKind::String)) } else if name == "properties"@ { Some(FieldRule::Collection(RelKind::Assignment, ValueKind::Any)) } else if name == "attributes"@ { Some(FieldRule::Collection(RelKind::Assignment, ValueKind::Any)) } else { None },
        DefKind::GroupType => if name == "derived_from"@ { Some(FieldRule::TypeRef(Entity::Group(GroupEntity), RelKind::DerivedFrom)) } else if name == "version"@ { Some(FieldRule::Field(RelKind::Version, ValueKind::String)) } else if name == "metadata"@ { Some(FieldRule::Collection(RelKind::Metadata, ValueKind::Any)) } else if name == "description"@ { Some(FieldRule::Field(RelKind::Description, ValueKind::String)) } else if name == "properties"@ { Some(FieldRule::Collection(RelKind::Definition, ValueKind::Def(slot(v, DefKind::Property)))) } else if name == "attributes"@ { Some(FieldRule::Collection(RelKind::Definition, ValueKind::Def(slot(v, DefKind::Attribute)))) } else if name == "members"@ { Some(FieldRule::TypeRefList(Entity::Node(NodeEntity), RelKind::MemberNodeType)) } else { None },
        DefKind::Group => if name == "type"@ { Some(FieldRule::TypeRef(Entity::Group(GroupEntity), RelKind::HasType)) } else if name == "description"@ { Some(FieldRule::Field(RelKind::Description, ValueKind::String)) } else if name == "metadata"@ { Some(FieldRule::Collection(RelKind::Metadata, ValueKind::Any)) } else if name == "properties"@ { Some(FieldRule::Collection(RelKind::Assignment, ValueKind::Any)) } else if name == "attributes"@ { Some(FieldRule::Collection(RelKind::Assignment, ValueKind::Any)) } else if name == "members"@ { Some(FieldRule::DefRefList(Entity::ServiceTemplate(ServiceTemplateEntity), Entity::Node(NodeEntity), RelKind::MemberNodeTemplate)) } else { None },
        DefKind::PolicyType => if name == "derived_from"@ { Some(FieldRule::TypeRef(Entity::Policy(PolicyEntity), RelKind::DerivedFrom)) } else if name == "version"@ { Some(FieldRule::Field(RelKind::Version, ValueKind::String)) } else if name == "metadata"@ { Some(FieldRule::Collection(RelKind::Metadata, ValueKind::Any)) } else if name == "description"@ { Some(FieldRule::Field(RelKind::Description, ValueKind::String)) } else if name == "properties"@ { Some(FieldRule::Collection(RelKind::Definition, ValueKind::Def(slot(v, DefKind::Property)))) } else if name == "targets"@ { Some(FieldRule::TypeRefList(Entity::Node(NodeEntity), RelKind::ValidTargetNodeType)) } else if name == "triggers"@ { Some(FieldRule::Collection(RelKind::Definition, ValueKind::Def(slot(v, DefKind::PolicyTrigger)))) } else { None },
        DefKind::Policy => if name == "type"@ { Some(FieldRule::TypeRef(Entity::Policy(PolicyEntity), RelKind::HasType)) } else if name == "description"@ { Some(FieldRule::Field(RelKind::Description, ValueKind::String)) } else if name == "metadata"@ { Some(FieldRule::Collection(RelKind::Metadata, ValueKind::Any)) } else if name == "properties"@ { Some(FieldRule::Collection(RelKind::Assignment, ValueKind::Any)) } else if name == "targets"@ { Some(FieldRule::TypeRefList(Entity::Node(NodeEntity), RelKind::ValidTargetNodeType)) } else if name == "triggers"@ { Some(FieldRule::Collection(RelKind::Definition, ValueKind::Def(slot(v, DefKind::PolicyTrigger)))) } else { None },
        DefKind::PolicyTrigger => if name == "description"@ { Some(FieldRule::Field(RelKind::Description, ValueKind::String)) } else if name == "event"@ { Some(FieldRule::Field(RelKind::PolicyTriggerEvent, ValueKind::String)) } else if name == "condition"@ { Some(FieldRule::Ignore) } else if name == "action"@ { Some(FieldRule::List(RelKind::WorkflowActivity, ValueKind::Def(slot(v, DefKind::WorkflowActivity)))) } else { None },
        DefKind::InterfaceType => if name == "derived_from"@ { Some(FieldRule::TypeRef(Entity::Interface(InterfaceEntity), RelKind::DerivedFrom)) } else if name == "version"@ { Some(FieldRule::Field(RelKind::Version, ValueKind::String)) } else if name == "metadata"@ { Some(FieldRule::Collection(RelKind::Metadata, ValueKind::Any)) } else if name == "description"@ { Some(FieldRule::Field(RelKind::Description, ValueKind::String)) } else if name == "operations"@ { Some(FieldRule::Collection(RelKind::Definition, ValueKind::Def(slot(v, DefKind::Operation)))) } else if name == "notifications"@ { Some(FieldRule::Collection(RelKind::Definition, ValueKind::Def(slot(v, DefKind::Notification)))) } else if name == "inputs"@ { Some(FieldRule::Collection(RelKind::Definition, ValueKind::Def(slot(v, DefKind::Parameter)))) } else { None },
        DefKind::Interface => if name == "type"@ { Some(FieldRule::TypeRef(Entity::Interface(InterfaceEntity), RelKind::HasType)) } else if name == "description"@ { Some(FieldRule::Field(RelKind::Description, ValueKind::String)) } else if name == "metadata"@ { Some(FieldRule::Collection(RelKind::Metadata, ValueKind::Any)) } else if name == "operations"@ { Some(FieldRule::Collection(RelKind::Definition, ValueKind::Def(slot(v, DefKind::Operation)))) } else if name == "notifications"@ { Some(FieldRule::Collection(RelKind::Definition, ValueKind::Def(slot(v, DefKind::Notification)))) } else if name == "inputs"@ { Some(FieldRule::Collection(RelKind::Definition, ValueKind::Def(slot(v, DefKind::Parameter)))) } else { None },
        DefKind::InterfaceAssignment => if name == "operations"@ { Some(FieldRule::Collection(RelKind::Assignment, ValueKind::Def(slot(v, DefKind::OperationAssignment)))) } else if name == "notifications"@ { Some(FieldRule::Collection(RelKind::Assignment, ValueKind::Def(slot(v, DefKind::NotificationAssignment)))) } else if name == "inputs"@ { Some(FieldRule::Collection(RelKind::Assignment, ValueKind::Any)) } else { None },
        DefKind::Operation => if name == "description"@ { Some(FieldRule::Field(RelKind::Description, ValueKind::String)) } else if name == "implementation"@ { Some(FieldRule::Field(RelKind::Definition, ValueKind::Def(slot(v, DefKind::Implementation)))) } else if name == "inputs"@ { Some(FieldRule::Collection(RelKind::Definition, ValueKind::Def(slot(v, DefKind::Parameter)))) } else if name == "outputs"@ { Some(FieldRule::Collection(RelKind::Definition, ValueKind::Def(slot(v, DefKind::Parameter)))) } else { None },
        DefKind::OperationAssignment => if name == "implementation"@ { Some(FieldRule::Field(RelKind::Definition, ValueKind::Def(slot(v, DefKind::Implementation)))) } else if name == "inputs"@ { Some(FieldRule::Collection(RelKind::Assignment, ValueKind::Any)) } else if name == "outputs"@ { Some(FieldRule::Collection(RelKind::Assignment, ValueKind::Any)) } else { None },
        DefKind::Notification => if name == "description"@ { Some(FieldRule::Field(RelKind::Description, ValueKind::String)) } else if name == "implementation"@ { Some(FieldRule::Field(RelKind::Definition, ValueKind::Def(slot(v, DefKind::Implementation)))) } else if name == "inputs"@ { Some(FieldRule::Collection(RelKind::Definition, ValueKind::Def(slot(v, DefKind::Parameter)))) } else if name == "outputs"@ { Some(FieldRule::Collection(RelKind::Definition, ValueKind::Def(slot(v, DefKind::Parameter)))) } else { None },
        DefKind::NotificationAssignment => if name == "implementation"@ { Some(FieldRule::Field(RelKind::Definition, ValueKind::Def(slot(v, DefKind::Implementation)))) } else if name == "inputs"@ { Some(FieldRule::Collection(RelKind::Assignment, ValueKind::Any)) } else if name == "outputs"@ { Some(FieldRule::Collection(RelKind::Assignment, ValueKind::Any)) } else { None },
        DefKind::RelationshipType => if name == "derived_from"@ { Some(FieldRule::TypeRef(Entity::Relationship(RelationshipEntity), RelKind::DerivedFrom)) } else if name == "version"@ { Some(FieldRule::Field(RelKind::Version, ValueKind::String)) } else if name == "metadata"@ { Some(FieldRule::Collection(RelKind::Metadata, ValueKind::Any)) } else if name == "description"@ { Some(FieldRule::Field(RelKind::Description, ValueKind::String)) } else if name == "properties"@ { Some(FieldRule::Collection(RelKind::Definition, ValueKind::Def(slot(v, DefKind::Property)))) } else if name == "attributes"@ { Some(FieldRule::Collection(RelKind::Definition, ValueKind::Def(slot(v, DefKind::Attribute)))) } else if name == "interfaces"@ { Some(FieldRule::Collection(RelKind::Definition, ValueKind::Def(slot(v, DefKind::Interface)))) } else if name == "valid_capability_types"@ { Some(FieldRule::TypeRefList(Entity::Capability(CapabilityEntity), RelKind::ValidCapabilityType)) } else if name == "valid_target_node_types"@ { Some(FieldRule::TypeRefList(Entity::Node(NodeEntity), RelKind::ValidTargetNodeType)) } else if name == "valid_source_node_types"@ { Some(FieldRule::TypeRefList(Entity::Node(NodeEntity), RelKind::ValidSourceNodeType)) } else { None },
        DefKind::RelationshipTemplate => if name == "type"@ { Some(FieldRule::TypeRef(Entity::Relationship(RelationshipEntity), RelKind::HasType)) } else if name == "description"@ { Some(FieldRule::Field(RelKind::Description, ValueKind::String)) } else if name == "metadata"@ { Some(FieldRule::Collection(RelKind::Metadata, ValueKind::Any)) } else if name == "properties"@ { Some(FieldRule::Collection(RelKind::Assignment, ValueKind::Any)) } else if name == "attributes"@ { Some(FieldRule::Collection(RelKind::Assignment, ValueKind::Any)) } else if name == "interfaces"@ { Some(FieldRule::Collection(RelKind::Assignment, ValueKind::Def(slot(v, DefKind::InterfaceAssignment)))) } else if name == "copy"@ { Some(FieldRule::Ignore) } else { None },
        DefKind::Relationship => if name == "type"@ { Some(FieldRule::TypeRef(Entity::Relationship(RelationshipEntity), RelKind::HasType)) } else if name == "description"@ { Some(FieldRule::Field(RelKind::Description, ValueKind::String)) } else if name == "metadata"@ { Some(FieldRule::Collection(RelKind::Metadata, ValueKind::Any)) } else if name == "properties"@ { Some(FieldRule::Collection(RelKind::Assignment, ValueKind::Any)) } else if name == "attributes"@ { Some(FieldRule::Collection(RelKind::Assignment, ValueKind::Any)) } else if name == "interfaces"@ { Some(FieldRule::Collection(RelKind::Assignment, ValueKind::Def(slot(v, DefKind::InterfaceAssignment)))) } else { None },
        DefKind::RelationshipAssignment => if name == "type"@ { Some(FieldRule::TypeRef(Entity::Relationship(RelationshipEntity), RelKind::HasType)) } else if name == "properties"@ { Some(FieldRule::Collection(RelKind::Assignment, ValueKind::Any)) } else if name == "attributes"@ { Some(FieldRule::Collection(RelKind::Assignment, ValueKind::Any)) } else if name == "interfaces"@ { Some(FieldRule::Collection(RelKind::Assignment, ValueKind::Def(slot(v, DefKind::InterfaceAssignment)))) } else { None },
        DefKind::Requirement => if name == "relationship"@ { Some(FieldRule::Field(RelKind::Definition, ValueKind::Def(slot(v, DefKind::Relationship)))) } else if name == "node"@ { Some(FieldRule::TypeRef(Entity::Node(NodeEntity), RelKind::ValidTargetNodeType)) } else if name == "capability"@ { Some(FieldRule::TypeRef(Entity::Capability(CapabilityEntity), RelKind::ValidCapabilityType)) } else if name == "occurrences"@ { Some(FieldRule::Ignore) } else { None },
        DefKind::RequirementAssignment => if name == "node"@ { Some(FieldRule::DefRef(Entity::ServiceTemplate(ServiceTemplateEntity), Entity::Node(NodeEntity), RelKind::TargetNode)) } else if name == "capability"@ { Some(FieldRule::Field(RelKind::TargetCapability, ValueKind::String)) } else if name == "relationship"@ { Some(FieldRule::Field(RelKind::Assignment, ValueKind::Def(slot(v, DefKind::RelationshipAssignment)))) } else if name == "node_filter"@ { Some(FieldRule::Ignore) } else if name == "occurrences"@ { Some(FieldRule::Ignore) } else { None },
        DefKind::Workflow => if name == "description"@ { Some(FieldRule::Field(RelKind::Description, ValueKind::String)) } else if name == "metadata"@ { Some(FieldRule::Collection(RelKind::Metadata, ValueKind::Any)) } else if name == "inputs"@ { Some(FieldRule::Collection(RelKind::Definition, ValueKind::Def(slot(v, DefKind::Parameter)))) } else if name == "outputs"@ { Some(FieldRule::Collection(RelKind::Definition, ValueKind::Def(slot(v, DefKind::Parameter)))) } else if name == "precondition"@ { Some(FieldRule::Ignore) } else if name == "steps"@ { Some(FieldRule::Collection(RelKind::Definition, ValueKind::Def(slot(v, DefKind::WorkflowStep)))) } else if name == "implementation"@ { Some(FieldRule::Field(RelKind::Definition, ValueKind::Def(slot(v, DefKind::Implementation)))) } else { None },
        DefKind::WorkflowStep => if name == "target"@ { Some(FieldRule::DefRef(Entity::ServiceTemplate(ServiceTemplateEntity), Entity::Node(NodeEntity), RelKind::TargetNode)) } else if name == "target_relationship"@ { Some(FieldRule::Field(RelKind::Definition, ValueKind::String)) } else if name == "filter"@ { Some(FieldRule::Ignore) } else if name == "activities"@ { Some(FieldRule::List(RelKind::WorkflowActivity, ValueKind::Def(slot(v, DefKind::WorkflowActivity)))) } else if name == "on_success"@ { Some(FieldRule::Ignore) } else if name == "on_failure"@ { Some(FieldRule::Ignore) } else { None },
        DefKind::WorkflowActivity => None,
        DefKind::WorkflowDelegateActivity => if name == "workflow"@ { Some(FieldRule::Field(RelKind::Description, ValueKind::String)) } else if name == "inputs"@ { Some(FieldRule::Collection(RelKind::Definition, ValueKind::Any)) } else { None },
        DefKind::WorkflowInlineActivity => if name == "workflow"@ { Some(FieldRule::Field(RelKind::Description, ValueKind::String)) } else if name == "inputs"@ { Some(FieldRule::Collection(RelKind::Definition, ValueKind::Any)) } else { None },
        DefKind::WorkflowSetStateActivity => None,
        DefKind::WorkflowCallOperationActivity => if name == "operation"@ { Some(FieldRule::Field(RelKind::Description, ValueKind::String)) } else if name == "inputs"@ { Some(FieldRule::Collection(RelKind::Definition, ValueKind::Any)) } else { None },
        DefKind::FunctionSignature => if name == "arguments"@ { Some(FieldRule::List(RelKind::FunctionArgument, ValueKind::Def(slot(v, DefKind::Schema)))) } else if name == "optional_arguments"@ { Some(FieldRule::List(RelKind::FunctionOptionalArgument, ValueKind::Def(slot(v, DefKind::Schema)))) } else if name == "variadic"@ { Some(FieldRule::Field(RelKind::Definition, ValueKind::Bool)) } else if name == "result"@ { Some(FieldRule::Field(RelKind::Definition, ValueKind::Def(slot(v, DefKind::Schema)))) } else if name == "implementation"@ { Some(FieldRule::Field(RelKind::Definition, ValueKind::Def(slot(v, DefKind::Implementation)))) } else { None },
        DefKind::Function => if name == "signatures"@ { Some(FieldRule::List(RelKind::FunctionSignature, ValueKind::Def(slot(v, DefKind::FunctionSignature)))) } else if name == "description"@ { Some(FieldRule::Field(RelKind::Description, ValueKind::String)) } else if name == "metadata"@ { Some(FieldRule::Collection(RelKind::Metadata, ValueKind::Any)) } else { None },
        DefKind::Repository => if name == "url"@ { Some(FieldRule::Field(RelKind::RepositoryUrl, ValueKind::String)) } else if name == "metadata"@ { Some(FieldRule::Collection(RelKind::Metadata, ValueKind::Any)) } else if name == "description"@ { Some(FieldRule::Field(RelKind::Description, ValueKind::String)) } else { None },
        DefKind::File13 => if name == "tosca_definitions_version"@ { Some(FieldRule::Ignore) } else if name == "namespace"@ { Some(FieldRule::Field(RelKind::Profile, ValueKind::String)) } else if name == "metadata"@ { Some(FieldRule::Collection(RelKind::Metadata, ValueKind::Any)) } else if name == "description"@ { Some(FieldRule::Field(RelKind::Description, ValueKind::String)) } else if name == "dsl_definitions"@ { Some(FieldRule::Ignore) } else if name == "imports"@ { Some(FieldRule::List(RelKind::Import, ValueKind::Def(slot(v, DefKind::Import)))) } else if name == "artifact_types"@ { Some(FieldRule::Collection(RelKind::Type, ValueKind::Def(slot(v, DefKind::ArtifactType)))) } else if name == "data_types"@ { Some(FieldRule::Collection(RelKind::Type, ValueKind::Def(slot(v, DefKind::DataType)))) } else if name == "capability_types"@ { Some(FieldRule::Collection(RelKind::Type, ValueKind::Def(slot(v, DefKind::CapabilityType)))) } else if name == "interface_types"@ { Some(FieldRule::Collection(RelKind::Type, ValueKind::Def(slot(v, DefKind::InterfaceType)))) } else if name == "relationship_types"@ { Some(FieldRule::Collection(RelKind::Type, ValueKind::Def(slot(v, DefKind::RelationshipType)))) } else if name == "node_types"@ { Some(FieldRule::Collection(RelKind::Type, ValueKind::Def(slot(v, DefKind::NodeType)))) } else if name == "group_types"@ { Some(FieldRule::Collection(RelKind::Type, ValueKind::Def(slot(v, DefKind::GroupType)))) } else if name == "policy_types"@ { Some(FieldRule::Collection(RelKind::Type, ValueKind::Def(slot(v, DefKind::PolicyType)))) } else if name == "topology_template"@ { Some(FieldRule::Field(RelKind::ServiceTemplate, ValueKind::Def(slot(v, DefKind::ServiceTemplate)))) } else { None },
        DefKind::Import13 => if name == "file"@ { Some(FieldRule::Field(RelKind::ImportUrl, ValueKind::String)) } else if name == "repository"@ { Some(FieldRule::DefRef(Entity::File(FileEntity), Entity::Repository(RepositoryEntity), RelKind::Repository)) } else if name == "namespace_prefix"@ { Some(FieldRule::Field(RelKind::ImportNamespace, ValueKind::String)) } else { None },
        DefKind::Artifact13 => if name == "type"@ { Some(FieldRule::TypeRef(Entity::Artifact(ArtifactEntity), RelKind::HasType)) } else if name == "file"@ { Some(FieldRule::Field(RelKind::HasFile, ValueKind::String)) } else if name == "repository"@ { Some(FieldRule::Field(RelKind::Repository, ValueKind::String)) } else if name == "description"@ { Some(FieldRule::Field(RelKind::Description, ValueKind::String)) } else if name == "deploy_path"@ { Some(FieldRule::Field(RelKind::Definition, ValueKind::String)) } else if name == "artifact_version"@ { Some(FieldRule::Field(RelKind::Version, ValueKind::String)) } else if name == "checksum"@ { Some(FieldRule::Field(RelKind::Checksum, ValueKind::String)) } else if name == "checksum_algorithm"@ { Some(FieldRule::Field(RelKind::ChecksumAlgorithm, ValueKind::String)) } else if name == "properties"@ { Some(FieldRule::Collection(RelKind::Assignment, ValueKind::Any)) } else { None },
        DefKind::Implementation13 => if name == "primary"@ { Some(FieldRule::ArtifactRef(RelKind::PrimaryArtifact)) } else if name == "dependencies"@ { Some(FieldRule::ArtifactRefList(RelKind::PrimaryArtifact)) } else if name == "timeout"@ { Some(FieldRule::Field(RelKind::Definition, ValueKind::Int)) } else if name == "operation_host"@ { Some(FieldRule::Field(RelKind::Definition, ValueKind::String)) } else { None },
        DefKind::RelationshipType13 => if name == "derived_from"@ { Some(FieldRule::TypeRef(Entity::Relationship(RelationshipEntity), RelKind::DerivedFrom)) } else if name == "version"@ { Some(FieldRule::Field(RelKind::Version, ValueKind::String)) } else if name == "metadata"@ { Some(FieldRule::Collection(RelKind::Metadata, ValueKind::Any)) } else if name == "description"@ { Some(FieldRule::Field(RelKind::Description, ValueKind::String)) } else if name == "properties"@ { Some(FieldRule::Collection(RelKind::Definition, ValueKind::Def(slot(v, DefKind::Property)))) } else if name == "attributes"@ { Some(FieldRule::Collection(RelKind::Definition, ValueKind::Def(slot(v, DefKind::Attribute)))) } else if name == "interfaces"@ { Some(FieldRule::Collection(RelKind::Definition, ValueKind::Def(slot(v, DefKind::Interface)))) } else if name == "valid_target_types"@ { Some(FieldRule::TypeRefList(Entity::Capability(CapabilityEntity), RelKind::ValidCapabilityType)) } else { None },
    }
}

fn file_fields(v: ToscaVersion, name: &str) -> (r: Option<FieldRule>)
    ensures
        r == schema_rule(v, DefKind::File, name@),
{
    if str_eq(name, "tosca_definitions_version") {
        Some(FieldRule::Ignore)
    } else if str_eq(name, "dsl_definitions") {
        Some(FieldRule::Ignore)
    } else if str_eq(name, "profile") {
        Some(FieldRule::Field(RelKind::Profile, ValueKind::String))
    } else if str_eq(name, "metadata") {
        Some(FieldRule::Collection(RelKind::Metadata, ValueKind::Any))
    } else if str_eq(name, "description") {
        Some(FieldRule::Field(RelKind::Description, ValueKind::String))
    } else if str_eq(name, "imports") {
        Some(FieldRule::List(RelKind::Import, ValueKind::Def(slot(v, DefKind::Import))))
    } else if str_eq(name, "service_template") {
        Some(FieldRule::Field(RelKind::ServiceTemplate, ValueKind::Def(slot(v, DefKind::ServiceTemplate))))
    } else if str_eq(name, "node_types") {
        Some(FieldRule::Collection(RelKind::Type, ValueKind::Def(slot(v, DefKind::NodeType))))
    } else if str_eq(name, "data_types") {
        Some(FieldRule::Collection(RelKind::Type, ValueKind::Def(slot(v, DefKind::DataType))))
    } else if str_eq(name, "artifact_types") {
        Some(FieldRule::Collection(RelKind::Type, ValueKind::Def(slot(v, DefKind::ArtifactType))))
    } else if str_eq(name, "capability_types") {
        Some(FieldRule::Collection(RelKind::Type, ValueKind::Def(slot(v, DefKind::CapabilityType))))
    } else if str_eq(name, "relationship_types") {
        Some(FieldRule::Collection(RelKind::Type, ValueKind::Def(slot(v, DefKind::RelationshipType))))
    } else if str_eq(name, "group_types") {
        Some(FieldRule::Collection(RelKind::Type, ValueKind::Def(slot(v, DefKind::GroupType))))
    } else if str_eq(name, "policy_types") {
        Some(FieldRule::Collection(RelKind::Type, ValueKind::Def(slot(v, DefKind::PolicyType))))
    } else if str_eq(name, "interface_types") {
        Some(FieldRule::Collection(RelKind::Type, ValueKind::Def(slot(v, DefKind::InterfaceType))))
    } else {
        None
    }
}

fn import_fields(v: ToscaVersion, name: &str) -> (r: Option<FieldRule>)
    ensures
        r == schema_rule(v, DefKind::Import, name@),
{
    if str_eq(name, "url") {
        Some(FieldRule::Field(RelKind::ImportUrl, ValueKind::String))
    } else if str_eq(name, "profile") {
        Some(FieldRule::Field(RelKind::ImportProfile, ValueKind::String))
    } else if str_eq(name, "repository") {
        Some(FieldRule::Field(RelKind::ImportRepository, ValueKind::String))
    } else if str_eq(name, "namespace") {
        Some(FieldRule::Field(RelKind::ImportNamespace, ValueKind::String))
    } else {
        None
    }
}

fn service_template_fields(v: ToscaVersion, name: &str) -> (r: Option<FieldRule>)
    ensures
        r == schema_rule(v, DefKind::ServiceTemplate, name@),
{
    if str_eq(name, "description") {
        Some(FieldRule::Field(RelKind::Description, ValueKind::String))
    } else if str_eq(name, "metadata") {
        Some(FieldRule::Collection(RelKind::Metadata, ValueKind::Any))
    } else if str_eq(name, "inputs") {
        Some(FieldRule::Collection(RelKind::Definition, ValueKind::Def(slot(v, DefKind::Parameter))))
    } else if str_eq(name, "outputs") {
        Some(FieldRule::Collection(RelKind::Definition, ValueKind::Def(slot(v, DefKind::Parameter))))
    } else if str_eq(name, "node_templates") {
        Some(FieldRule::Collection(RelKind::Definition, ValueKind::Def(slot(v, DefKind::NodeTemplate))))
    } else if str_eq(name, "relationship_templates") {
        Some(FieldRule::Collection(RelKind::Definition, ValueKind::Def(slot(v, DefKind::RelationshipTemplate))))
    } else if str_eq(name, "groups") {
        Some(FieldRule::Collection(RelKind::Definition, ValueKind::Def(slot(v, DefKind::Group))))
    } else if str_eq(name, "workflows") {
        Some(FieldRule::Collection(RelKind::Definition, ValueKind::Def(slot(v, DefKind::Workflow))))
    } else if str_eq(name, "policies") {
        Some(FieldRule::Ignore)
    } else if str_eq(name, "substitution_mappings") {
        Some(FieldRule::Field(RelKind::SubstitutionMapping, ValueKind::Def(slot(v, DefKind::SubstitutionMapping))))
    } else {
        None
    }
}

fn substitution_mapping_fields(v: ToscaVersion, name: &str) -> (r: Option<FieldRule>)
    ensures
        r == schema_rule(v, DefKind::SubstitutionMapping, name@),
{
    if str_eq(name, "node_type") {
        Some(FieldRule::TypeRef(Entity::Node(NodeEntity), RelKind::SubstitutesType))
    } else if str_eq(name, "substitution_filter") {
        Some(FieldRule::Ignore)
    } else if str_eq(name, "properties") {
        Some(FieldRule::Collection(RelKind::Definition, ValueKind::Any))
    } else if str_eq(name, "attributes") {
        Some(FieldRule::Collection(RelKind::Definition, ValueKind::Any))
    } else if str_eq(name, "capabilities") {
        Some(FieldRule::Collection(RelKind::Definition, ValueKind::Any))
    } else if str_eq(name, "requirements") {
        Some(FieldRule::KeyedList(RelKind::OrderedDefinition, ValueKind::Any))
    } else if str_eq(name, "interfaces") {
        Some(FieldRule::Collection(RelKind::Definition, ValueKind::Any))
    } else {
        None
    }
}

fn node_type_fields(v: ToscaVersion, name: &str) -> (r: Option<FieldRule>)
    ensures
        r == schema_rule(v, DefKind::NodeType, name@),
{
    if str_eq(name, "derived_from") {
        Some(FieldRule::TypeRef(Entity::Node(NodeEntity), RelKind::DerivedFrom))
    } else if str_eq(name, "version") {
        Some(FieldRule::Field(RelKind::Version, ValueKind::String))
    } else if str_eq(name, "metadata") {
        Some(FieldRule::Collection(RelKind::Metadata, ValueKind::Any))
    } else if str_eq(name, "description") {
        Some(FieldRule::Field(RelKind::Description, ValueKind::String))
    } else if str_eq(name, "properties") {
        Some(FieldRule::Collection(RelKind::Definition, ValueKind::Def(slot(v, DefKind::Property))))
    } else if str_eq(name, "attributes") {
        Some(FieldRule::Collection(RelKind::Definition, ValueKind::Def(slot(v, DefKind::Attribute))))
    } else if str_eq(name, "capabilities") {
        Some(FieldRule::Collection(RelKind::Definition, ValueKind::Def(slot(v, DefKind::Capability))))
    } else if str_eq(name, "requirements") {
        Some(FieldRule::KeyedList(RelKind::OrderedDefinition, ValueKind::Def(slot(v, DefKind::Requirement))))
    } else if str_eq(name, "interfaces") {
        Some(FieldRule::Collection(RelKind::Definition, ValueKind::Def(slot(v, DefKind::Interface))))
    } else if str_eq(name, "artifacts") {
        Some(FieldRule::Collection(RelKind::Definition, ValueKind::Def(slot(v, DefKind::Artifact))))
    } else {
        None
    }
}

fn node_template_fields(v: ToscaVersion, name: &str) -> (r: Option<FieldRule>)
    ensures
        r == schema_rule(v, DefKind::NodeTemplate, name@),
{
    if str_eq(name, "type") {
        Some(FieldRule::TypeRef(Entity::Node(NodeEntity), RelKind::HasType))
    } else if str_eq(name, "description") {
        Some(FieldRule::Field(RelKind::Description, ValueKind::String))
    } else if str_eq(name, "metadata") {
        Some(FieldRule::Collection(RelKind::Metadata, ValueKind::Any))
    } else if str_eq(name, "directives") {
        Some(FieldRule::List(RelKind::Directive, ValueKind::String))
    } else if str_eq(name, "properties") {
        Some(FieldRule::Collection(RelKind::Assignment, ValueKind::Any))
    } else if str_eq(name, "attributes") {
        Some(FieldRule::Collection(RelKind::Assignment, ValueKind::Any))
    } else if str_eq(name, "capabilities") {
        Some(FieldRule::Collection(RelKind::Assignment, ValueKind::Def(slot(v, DefKind::CapabilityAssignment))))
    } else if str_eq(name, "requirements") {
        Some(FieldRule::KeyedList(RelKind::OrderedAssignment, ValueKind::Def(slot(v, DefKind::RequirementAssignment))))
    } else if str_eq(name, "interfaces") {
        Some(FieldRule::Collection(RelKind::Assignment, ValueKind::Def(slot(v, DefKind::InterfaceAssignment))))
    } else if str_eq(name, "artifacts") {
        Some(FieldRule::Collection(RelKind::Definition, ValueKind::Def(slot(v, DefKind::Artifact))))
    } else if str_eq(name, "count") {
        Some(FieldRule::Ignore)
    } else if str_eq(name, "node_filter") {
        Some(FieldRule::Ignore)
    } else if str_eq(name, "copy") {
        Some(FieldRule::Ignore)
    } else {
        None
    }
}

fn data_type_fields(v: ToscaVersion, name: &str) -> (r: Option<FieldRule>)
    ensures
        r == schema_rule(v, DefKind::DataType, name@),
{
    if str_eq(name, "derived_from") {
        Some(FieldRule::TypeRef(Entity::Data(DataEntity), RelKind::DerivedFrom))
    } else if str_eq(name, "version") {
        Some(FieldRule::Field(RelKind::Version, ValueKind::String))
    } else if str_eq(name, "metadata") {
        Some(FieldRule::Collection(RelKind::Metadata, ValueKind::String))
    } else if str_eq(name, "description") {
        Some(FieldRule::Field(RelKind::Description, ValueKind::String))
    } else if str_eq(name, "validation") {
        Some(FieldRule::Field(RelKind::Validation, ValueKind::Any))
    } else if str_eq(name, "properties") {
        Some(FieldRule::Collection(RelKind::Definition, ValueKind::Def(slot(v, DefKind::Property))))
    } else if str_eq(name, "key_schema") {
        Some(FieldRule::Field(RelKind::KeySchema, ValueKind::Def(slot(v, DefKind::Schema))))
    } else if str_eq(name, "entry_schema") {
        Some(FieldRule::Field(RelKind::EntrySchema, ValueKind::Def(slot(v, DefKind::Schema))))
    } else {
        None
    }
}

fn schema_fields(v: ToscaVersion, name: &str) -> (r: Option<FieldRule>)
    ensures
        r == schema_rule(v, DefKind::Schema, name@),
{
    if str_eq(name, "type") {
        Some(FieldRule::TypeRef(Entity::Data(DataEntity), RelKind::HasType))
    } else if str_eq(name, "description") {
        Some(FieldRule::Field(RelKind::Description, ValueKind::String))
    } else if str_eq(name, "validation") {
        Some(FieldRule::Field(RelKind::Validation, ValueKind::Any))
    } else if str_eq(name, "key_schema") {
        Some(FieldRule::Field(RelKind::KeySchema, ValueKind::Def(slot(v, DefKind::Schema))))
    } else if str_eq(name, "entry_schema") {
        Some(FieldRule::Field(RelKind::EntrySchema, ValueKind::Def(slot(v, DefKind::Schema))))
    } else {
        None
    }
}

fn attribute_fields(v: ToscaVersion, name: &str) -> (r: Option<FieldRule>)
    ensures
        r == schema_rule(v, DefKind::Attribute, name@),
{
    if str_eq(name, "type") {
        Some(FieldRule::TypeRef(Entity::Data(DataEntity), RelKind::HasType))
    } else if str_eq(name, "description") {
        Some(FieldRule::Field(RelKind::Description, ValueKind::String))
    } else if str_eq(name, "default") {
        Some(FieldRule::Field(RelKind::Default, ValueKind::Any))
    } else if str_eq(name, "status") {
        Some(FieldRule::Field(RelKind::Default, ValueKind::Status))
    } else if str_eq(name, "validation") {
        Some(FieldRule::Field(RelKind::Validation, ValueKind::Any))
    } else if str_eq(name, "key_schema") {
        Some(FieldRule::Field(RelKind::KeySchema, ValueKind::Def(slot(v, DefKind::Schema))))
    } else if str_eq(name, "entry_schema") {
        Some(FieldRule::Field(RelKind::EntrySchema, ValueKind::Def(slot(v, DefKind::Schema))))
    } else if str_eq(name, "metadata") {
        Some(FieldRule::Collection(RelKind::Metadata, ValueKind::String))
    } else {
        None
    }
}

fn property_fields(v: ToscaVersion, name: &str) -> (r: Option<FieldRule>)
    ensures
        r == schema_rule(v, DefKind::Property, name@),
{
    if str_eq(name, "type") {
        Some(FieldRule::TypeRef(Entity::Data(DataEntity), RelKind::HasType))
    } else if str_eq(name, "description") {
        Some(FieldRule::Field(RelKind::Description, ValueKind::String))
    } else if str_eq(name, "required") {
        Some(FieldRule::Field(RelKind::Required, ValueKind::Bool))
    } else if str_eq(name, "default") {
        Some(FieldRule::Field(RelKind::Default, ValueKind::Any))
    } else if str_eq(name, "status") {
        Some(FieldRule::Field(RelKind::Default, ValueKind::Status))
    } else if str_eq(name, "validation") {
        Some(FieldRule::Field(RelKind::Validation, ValueKind::Any))
    } else if str_eq(name, "value") {
        Some(FieldRule::Field(RelKind::Value, ValueKind::Any))
    } else if str_eq(name, "key_schema") {
        Some(FieldRule::Field(RelKind::KeySchema, ValueKind::Def(slot(v, DefKind::Schema))))
    } else if str_eq(name, "entry_schema") {
        Some(FieldRule::Field(RelKind::EntrySchema, ValueKind::Def(slot(v, DefKind::Schema))))
    } else if str_eq(name, "external-schema") {
        Some(FieldRule::Field(RelKind::ExternalSchema, ValueKind::String))
    } else if str_eq(name, "metadata") {
        Some(FieldRule::Collection(RelKind::Metadata, ValueKind::String))
    } else {
        None
    }
}

fn parameter_fields(v: ToscaVersion, name: &str) -> (r: Option<FieldRule>)
    ensures
        r == schema_rule(v, DefKind::Parameter, name@),
{
    if str_eq(name, "type") {
        Some(FieldRule::TypeRef(Entity::Data(DataEntity), RelKind::HasType))
    } else if str_eq(name, "description") {
        Some(FieldRule::Field(RelKind::Description, ValueKind::String))
    } else if str_eq(name, "required") {
        Some(FieldRule::Field(RelKind::Required, ValueKind::Bool))
    } else if str_eq(name, "default") {
        Some(FieldRule::Field(RelKind::Default, ValueKind::Any))
    } else if str_eq(name, "status") {
        Some(FieldRule::Field(RelKind::Default, ValueKind::Status))
    } else if str_eq(name, "validation") {
        Some(FieldRule::Field(RelKind::Validation, ValueKind::Any))
    } else if str_eq(name, "value") {
        Some(FieldRule::Field(RelKind::Value, ValueKind::Any))
    } else if str_eq(name, "mapping") {
        Some(FieldRule::Field(RelKind::Mapping, ValueKind::Any))
    } else if str_eq(name, "key_schema") {
        Some(FieldRule::Field(RelKind::KeySchema, ValueKind::Def(slot(v, DefKind::Schema))))
    } else if str_eq(name, "entry_schema") {
        Some(FieldRule::Field(RelKind::EntrySchema, ValueKind::Def(slot(v, DefKind::Schema))))
    } else if str_eq(name, "external-schema") {
        Some(FieldRule::Field(RelKind::ExternalSchema, ValueKind::String))
    } else if str_eq(name, "metadata") {
        Some(FieldRule::Collection(RelKind::Metadata, ValueKind::String))
    } else {
        None
    }
}

fn artifact_type_fields(v: ToscaVersion, name: &str) -> (r: Option<FieldRule>)
    ensures
        r == schema_rule(v, DefKind::ArtifactType, name@),
{
    if str_eq(name, "derived_from") {
        Some(FieldRule::TypeRef(Entity::Artifact(ArtifactEntity), RelKind::DerivedFrom))
    } else if str_eq(name, "version") {
        Some(FieldRule::Field(RelKind::Version, ValueKind::String))
    } else if str_eq(name, "metadata") {
        Some(FieldRule::Collection(RelKind::Metadata, ValueKind::Any))
    } else if str_eq(name, "description") {
        Some(FieldRule::Field(RelKind::Description, ValueKind::String))
    } else if str_eq(name, "mime_type") {
        Some(FieldRule::Field(RelKind::MimeType, ValueKind::String))
    } else if str_eq(name, "file_ext") {
        Some(FieldRule::List(RelKind::FileExt, ValueKind::String))
    } else if str_eq(name, "properties") {
        Some(FieldRule::Collection(RelKind::Definition, ValueKind::Def(slot(v, DefKind::Property))))
    } else {
        None
    }
}

fn artifact_fields(v: ToscaVersion, name: &str) -> (r: Option<FieldRule>)
    ensures
        r == schema_rule(v, DefKind::Artifact, name@),
{
    if str_eq(name, "type") {
        Some(FieldRule::TypeRef(Entity::Artifact(ArtifactEntity), RelKind::HasType))
    } else if str_eq(name, "file") {
        Some(FieldRule::Field(RelKind::HasFile, ValueKind::String))
    } else if str_eq(name, "repository") {
        Some(FieldRule::Field(RelKind::Repository, ValueKind::String))
    } else if str_eq(name, "description") {
        Some(FieldRule::Field(RelKind::Description, ValueKind::String))
    } else if str_eq(name, "metadata") {
        Some(FieldRule::Collection(RelKind::Metadata, ValueKind::Any))
    } else if str_eq(name, "artifact_version") {
        Some(FieldRule::Field(RelKind::Version, ValueKind::String))
    } else if str_eq(name, "checksum") {
        Some(FieldRule::Field(RelKind::Checksum, ValueKind::String))
    } else if str_eq(name, "checksum_algorithm") {
        Some(FieldRule::Field(RelKind::ChecksumAlgorithm, ValueKind::String))
    } else if str_eq(name, "properties") {
        Some(FieldRule::Collection(RelKind::Assignment, ValueKind::Any))
    } else {
        None
    }
}

fn implementation_fields(v: ToscaVersion, name: &str) -> (r: Option<FieldRule>)
    ensures
        r == schema_rule(v, DefKind::Implementation, name@),
{
    if str_eq(name, "primary") {
        Some(FieldRule::ArtifactRef(RelKind::PrimaryArtifact))
    } else if str_eq(name, "dependencies") {
        Some(FieldRule::ArtifactRefList(RelKind::DependencyArtifact))
    } else {
        None
    }
}

fn capability_type_fields(v: ToscaVersion, name: &str) -> (r: Option<FieldRule>)
    ensures
        r == schema_rule(v, DefKind::CapabilityType, name@),
{
    if str_eq(name, "derived_from") {
        Some(FieldRule::TypeRef(Entity::Capability(CapabilityEntity), RelKind::DerivedFrom))
    } else if str_eq(name, "version") {
        Some(FieldRule::Field(RelKind::Version, ValueKind::String))
    } else if str_eq(name, "metadata") {
        Some(FieldRule::Collection(RelKind::Metadata, ValueKind::Any))
    } else if str_eq(name, "description") {
        Some(FieldRule::Field(RelKind::Description, ValueKind::String))
    } else if str_eq(name, "properties") {
        Some(FieldRule::Collection(RelKind::Definition, ValueKind::Def(slot(v, DefKind::Property))))
    } else if str_eq(name, "attributes") {
        Some(FieldRule::Collection(RelKind::Definition, ValueKind::Def(slot(v, DefKind::Attribute))))
    } else if str_eq(name, "valid_source_node_types") {
        Some(FieldRule::TypeRefList(Entity::Node(NodeEntity), RelKind::ValidSourceNodeType))
    } else if str_eq(name, "valid_relationship_types") {
        Some(FieldRule::TypeRefList(Entity::Relationship(RelationshipEntity), RelKind::ValidRelationshipType))
    } else {
        None
    }
}

fn capability_fields(v: ToscaVersion, name: &str) -> (r: Option<FieldRule>)
    ensures
        r == schema_rule(v, DefKind::Capability, name@),
{
    if str_eq(name, "type") {
        Some(FieldRule::TypeRef(Entity::Capability(CapabilityEntity), RelKind::HasType))
    } else if str_eq(name, "description") {
        Some(FieldRule::Field(RelKind::Description, ValueKind::String))
    } else if str_eq(name, "metadata") {
        Some(FieldRule::Collection(RelKind::Metadata, ValueKind::Any))
    } else if str_eq(name, "properties") {
        Some(FieldRule::Collection(RelKind::Definition, ValueKind::Def(slot(v, DefKind::Property))))
    } else if str_eq(name, "attributes") {
        Some(FieldRule::Collection(RelKind::Definition, ValueKind::Def(slot(v, DefKind::Attribute))))
    } else if str_eq(name, "valid_source_node_types") {
        Some(FieldRule::TypeRefList(Entity::Node(NodeEntity), RelKind::ValidSourceNodeType))
    } else if str_eq(name, "valid_relationship_types") {
        Some(FieldRule::TypeRefList(Entity::Relationship(RelationshipEntity), RelKind::ValidRelationshipType))
    } else {
        None
    }
}

fn capability_assignment_fields(v: ToscaVersion, name: &str) -> (r: Option<FieldRule>)
    ensures
        r == schema_rule(v, DefKind::CapabilityAssignment, name@),
{
    if str_eq(name, "directives") {
        Some(FieldRule::List(RelKind::Directive, ValueKind::String))
    } else if str_eq(name, "properties") {
        Some(FieldRule::Collection(RelKind::Assignment, ValueKind::Any))
    } else if str_eq(name, "attributes") {
        Some(FieldRule::Collection(RelKind::Assignment, ValueKind::Any))
    } else {
        None
    }
}

fn group_type_fields(v: ToscaVersion, name: &str) -> (r: Option<FieldRule>)
    ensures
        r == schema_rule(v, DefKind::GroupType, name@),
{
    if str_eq(name, "derived_from") {
        Some(FieldRule::TypeRef(Entity::Group(GroupEntity), RelKind::DerivedFrom))
    } else if str_eq(name, "version") {
        Some(FieldRule::Field(RelKind::Version, ValueKind::String))
    } else if str_eq(name, "metadata") {
        Some(FieldRule::Collection(RelKind::Metadata, ValueKind::Any))
    } else if str_eq(name, "description") {
        Some(FieldRule::Field(RelKind::Description, ValueKind::String))
    } else if str_eq(name, "properties") {
        Some(FieldRule::Collection(RelKind::Definition, ValueKind::Def(slot(v, DefKind::Property))))
    } else if str_eq(name, "attributes") {
        Some(FieldRule::Collection(RelKind::Definition, ValueKind::Def(slot(v, DefKind::Attribute))))
    } else if str_eq(name, "members") {
        Some(FieldRule::TypeRefList(Entity::Node(NodeEntity), RelKind::MemberNodeType))
    } else {
        None
    }
}

fn group_fields(v: ToscaVersion, name: &str) -> (r: Option<FieldRule>)
    ensures
        r == schema_rule(v, DefKind::Group, name@),
{
    if str_eq(name, "type") {
        Some(FieldRule::TypeRef(Entity::Group(GroupEntity), RelKind::HasType))
    } else if str_eq(name, "description") {
        Some(FieldRule::Field(RelKind::Description, ValueKind::String))
    } else if str_eq(name, "metadata") {
        Some(FieldRule::Collection(RelKind::Metadata, ValueKind::Any))
    } else if str_eq(name, "properties") {
        Some(FieldRule::Collection(RelKind::Assignment, ValueKind::Any))
    } else if str_eq(name, "attributes") {
        Some(FieldRule::Collection(RelKind::Assignment, ValueKind::Any))
    } else if str_eq(name, "members") {
        Some(FieldRule::DefRefList(Entity::ServiceTemplate(ServiceTemplateEntity), Entity::Node(NodeEntity), RelKind::MemberNodeTemplate))
    } else {
        None
    }
}

fn policy_type_fields(v: ToscaVersion, name: &str) -> (r: Option<FieldRule>)
    ensures
        r == schema_rule(v, DefKind::PolicyType, name@),
{
    if str_eq(name, "derived_from") {
        Some(FieldRule::TypeRef(Entity::Policy(PolicyEntity), RelKind::DerivedFrom))
    } else if str_eq(name, "version") {
        Some(FieldRule::Field(RelKind::Version, ValueKind::String))
    } else if str_eq(name, "metadata") {
        Some(FieldRule::Collection(RelKind::Metadata, ValueKind::Any))
    } else if str_eq(name, "description") {
        Some(FieldRule::Field(RelKind::Description, ValueKind::String))
    } else if str_eq(name, "properties") {
        Some(FieldRule::Collection(RelKind::Definition, ValueKind::Def(slot(v, DefKind::Property))))
    } else if str_eq(name, "targets") {
        Some(FieldRule::TypeRefList(Entity::Node(NodeEntity), RelKind::ValidTargetNodeType))
    } else if str_eq(name, "triggers") {
        Some(FieldRule::Collection(RelKind::Definition, ValueKind::Def(slot(v, DefKind::PolicyTrigger))))
    } else {
        None
    }
}

fn policy_fields(v: ToscaVersion, name: &str) -> (r: Option<FieldRule>)
    ensures
        r == schema_rule(v, DefKind::Policy, name@),
{
    if str_eq(name, "type") {
        Some(FieldRule::TypeRef(Entity::Policy(PolicyEntity), RelKind::HasType))
    } else if str_eq(name, "description") {
        Some(FieldRule::Field(RelKind::Description, ValueKind::String))
    } else if str_eq(name, "metadata") {
        Some(FieldRule::Collection(RelKind::Metadata, ValueKind::Any))
    } else if str_eq(name, "properties") {
        Some(FieldRule::Collection(RelKind::Assignment, ValueKind::Any))
    } else if str_eq(name, "targets") {
        Some(FieldRule::TypeRefList(Entity::Node(NodeEntity), RelKind::ValidTargetNodeType))
    } else if str_eq(name, "triggers") {
        Some(FieldRule::Collection(RelKind::Definition, ValueKind::Def(slot(v, DefKind::PolicyTrigger))))
    } else {
        None
    }
}

fn policy_trigger_fields(v: ToscaVersion, name: &str) -> (r: Option<FieldRule>)
    ensures
        r == schema_rule(v, DefKind::PolicyTrigger, name@),
{
    if str_eq(name, "description") {
        Some(FieldRule::Field(RelKind::Description, ValueKind::String))
    } else if str_eq(name, "event") {
        Some(FieldRule::Field(RelKind::PolicyTriggerEvent, ValueKind::String))
    } else if str_eq(name, "condition") {
        Some(FieldRule::Ignore)
    } else if str_eq(name, "action") {
        Some(FieldRule::List(RelKind::WorkflowActivity, ValueKind::Def(slot(v, DefKind::WorkflowActivity))))
    } else {
        None
    }
}

fn interface_type_fields(v: ToscaVersion, name: &str) -> (r: Option<FieldRule>)
    ensures
        r == schema_rule(v, DefKind::InterfaceType, name@),
{
    if str_eq(name, "derived_from") {
        Some(FieldRule::TypeRef(Entity::Interface(InterfaceEntity), RelKind::DerivedFrom))
    } else if str_eq(name, "version") {
        Some(FieldRule::Field(RelKind::Version, ValueKind::String))
    } else if str_eq(name, "metadata") {
        Some(FieldRule::Collection(RelKind::Metadata, ValueKind::Any))
    } else if str_eq(name, "description") {
        Some(FieldRule::Field(RelKind::Description, ValueKind::String))
    } else if str_eq(name, "operations") {
        Some(FieldRule::Collection(RelKind::Definition, ValueKind::Def(slot(v, DefKind::Operation))))
    } else if str_eq(name, "notifications") {
        Some(FieldRule::Collection(RelKind::Definition, ValueKind::Def(slot(v, DefKind::Notification))))
    } else if str_eq(name, "inputs") {
        Some(FieldRule::Collection(RelKind::Definition, ValueKind::Def(slot(v, DefKind::Parameter))))
    } else {
        None
    }
}

fn interface_fields(v: ToscaVersion, name: &str) -> (r: Option<FieldRule>)
    ensures
        r == schema_rule(v, DefKind::Interface, name@),
{
    if str_eq(name, "type") {
        Some(FieldRule::TypeRef(Entity::Interface(InterfaceEntity), RelKind::HasType))
    } else if str_eq(name, "description") {
        Some(FieldRule::Field(RelKind::Description, ValueKind::String))
    } else if str_eq(name, "metadata") {
        Some(FieldRule::Collection(RelKind::Metadata, ValueKind::Any))
    } else if str_eq(name, "operations") {
        Some(FieldRule::Collection(RelKind::Definition, ValueKind::Def(slot(v, DefKind::Operation))))
    } else if str_eq(name, "notifications") {
        Some(FieldRule::Collection(RelKind::Definition, ValueKind::Def(slot(v, DefKind::Notification))))
    } else if str_eq(name, "inputs") {
        Some(FieldRule::Collection(RelKind::Definition, ValueKind::Def(slot(v, DefKind::Parameter))))
    } else {
        None
    }
}

fn interface_assignment_fields(v: ToscaVersion, name: &str) -> (r: Option<FieldRule>)
    ensures
        r == schema_rule(v, DefKind::InterfaceAssignment, name@),
{
    if str_eq(name, "operations") {
        Some(FieldRule::Collection(RelKind::Assignment, ValueKind::Def(slot(v, DefKind::OperationAssignment))))
    } else if str_eq(name, "notifications") {
        Some(FieldRule::Collection(RelKind::Assignment, ValueKind::Def(slot(v, DefKind::NotificationAssignment))))
    } else if str_eq(name, "inputs") {
        Some(FieldRule::Collection(RelKind::Assignment, ValueKind::Any))
    } else {
        None
    }
}

fn operation_fields(v: ToscaVersion, name: &str) -> (r: Option<FieldRule>)
    ensures
        r == schema_rule(v, DefKind::Operation, name@),
{
    if str_eq(name, "description") {
        Some(FieldRule::Field(RelKind::Description, ValueKind::String))
    } else if str_eq(name, "implementation") {
        Some(FieldRule::Field(RelKind::Definition, ValueKind::Def(slot(v, DefKind::Implementation))))
    } else if str_eq(name, "inputs") {
        Some(FieldRule::Collection(RelKind::Definition, ValueKind::Def(slot(v, DefKind::Parameter))))
    } else if str_eq(name, "outputs") {
        Some(FieldRule::Collection(RelKind::Definition, ValueKind::Def(slot(v, DefKind::Parameter))))
    } else {
        None
    }
}

fn operation_assignment_fields(v: ToscaVersion, name: &str) -> (r: Option<FieldRule>)
    ensures
        r == schema_rule(v, DefKind::OperationAssignment, name@),
{
    if str_eq(name, "implementation") {
        Some(FieldRule::Field(RelKind::Definition, ValueKind::Def(slot(v, DefKind::Implementation))))
    } else if str_eq(name, "inputs") {
        Some(FieldRule::Collection(RelKind::Assignment, ValueKind::Any))
    } else if str_eq(name, "outputs") {
        Some(FieldRule::Collection(RelKind::Assignment, ValueKind::Any))
    } else {
        None
    }
}

fn notification_fields(v: ToscaVersion, name: &str) -> (r: Option<FieldRule>)
    ensures
        r == schema_rule(v, DefKind::Notification, name@),
{
    if str_eq(name, "description") {
        Some(FieldRule::Field(RelKind::Description, ValueKind::String))
    } else if str_eq(name, "implementation") {
        Some(FieldRule::Field(RelKind::Definition, ValueKind::Def(slot(v, DefKind::Implementation))))
    } else if str_eq(name, "inputs") {
        Some(FieldRule::Collection(RelKind::Definition, ValueKind::Def(slot(v, DefKind::Parameter))))
    } else if str_eq(name, "outputs") {
        Some(FieldRule::Collection(RelKind::Definition, ValueKind::Def(slot(v, DefKind::Parameter))))
    } else {
        None
    }
}

fn notification_assignment_fields(v: ToscaVersion, name: &str) -> (r: Option<FieldRule>)
    ensures
        r == schema_rule(v, DefKind::NotificationAssignment, name@),
{
    if str_eq(name, "implementation") {
        Some(FieldRule::Field(RelKind::Definition, ValueKind::Def(slot(v, DefKind::Implementation))))
    } else if str_eq(name, "inputs") {
        Some(FieldRule::Collection(RelKind::Assignment, ValueKind::Any))
    } else if str_eq(name, "outputs") {
        Some(FieldRule::Collection(RelKind::Assignment, ValueKind::Any))
    } else {
        None
    }
}

fn relationship_type_fields(v: ToscaVersion, name: &str) -> (r: Option<FieldRule>)
    ensures
        r == schema_rule(v, DefKind::RelationshipType, name@),
{
    if str_eq(name, "derived_from") {
        Some(FieldRule::TypeRef(Entity::Relationship(RelationshipEntity), RelKind::DerivedFrom))
    } else if str_eq(name, "version") {
        Some(FieldRule::Field(RelKind::Version, ValueKind::String))
    } else if str_eq(name, "metadata") {
        Some(FieldRule::Collection(RelKind::Metadata, ValueKind::Any))
    } else if str_eq(name, "description") {
        Some(FieldRule::Field(RelKind::Description, ValueKind::String))
    } else if str_eq(name, "properties") {
        Some(FieldRule::Collection(RelKind::Definition, ValueKind::Def(slot(v, DefKind::Property))))
    } else if str_eq(name, "attributes") {
        Some(FieldRule::Collection(RelKind::Definition, ValueKind::Def(slot(v, DefKind::Attribute))))
    } else if str_eq(name, "interfaces") {
        Some(FieldRule::Collection(RelKind::Definition, ValueKind::Def(slot(v, DefKind::Interface))))
    } else if str_eq(name, "valid_capability_types") {
        Some(FieldRule::TypeRefList(Entity::Capability(CapabilityEntity), RelKind::ValidCapabilityType))
    } else if str_eq(name, "valid_target_node_types") {
        Some(FieldRule::TypeRefList(Entity::Node(NodeEntity), RelKind::ValidTargetNodeType))
    } else if str_eq(name, "valid_source_node_types") {
        Some(FieldRule::TypeRefList(Entity::Node(NodeEntity), RelKind::ValidSourceNodeType))
    } else {
        None
    }
}

fn relationship_template_fields(v: ToscaVersion, name: &str) -> (r: Option<FieldRule>)
    ensures
        r == schema_rule(v, DefKind::RelationshipTemplate, name@),
{
    if str_eq(name, "type") {
        Some(FieldRule::TypeRef(Entity::Relationship(RelationshipEntity), RelKind::HasType))
    } else if str_eq(name, "description") {
        Some(FieldRule::Field(RelKind::Description, ValueKind::String))
    } else if str_eq(name, "metadata") {
        Some(FieldRule::Collection(RelKind::Metadata, ValueKind::Any))
    } else if str_eq(name, "properties") {
        Some(FieldRule::Collection(RelKind::Assignment, ValueKind::Any))
    } else if str_eq(name, "attributes") {
        Some(FieldRule::Collection(RelKind::Assignment, ValueKind::Any))
    } else if str_eq(name, "interfaces") {
        Some(FieldRule::Collection(RelKind::Assignment, ValueKind::Def(slot(v, DefKind::InterfaceAssignment))))
    } else if str_eq(name, "copy") {
        Some(FieldRule::Ignore)
    } else {
        None
    }
}

fn relationship_fields(v: ToscaVersion, name: &str) -> (r: Option<FieldRule>)
    ensures
        r == schema_rule(v, DefKind::Relationship, name@),
{
    if str_eq(name, "type") {
        Some(FieldRule::TypeRef(Entity::Relationship(RelationshipEntity), RelKind::HasType))
    } else if str_eq(name, "description") {
        Some(FieldRule::Field(RelKind::Description, ValueKind::String))
    } else if str_eq(name, "metadata") {
        Some(FieldRule::Collection(RelKind::Metadata, ValueKind::Any))
    } else if str_eq(name, "properties") {
        Some(FieldRule::Collection(RelKind::Assignment, ValueKind::Any))
    } else if str_eq(name, "attributes") {
        Some(FieldRule::Collection(RelKind::Assignment, ValueKind::Any))
    } else if str_eq(name, "interfaces") {
        Some(FieldRule::Collection(RelKind::Assignment, ValueKind::Def(slot(v, DefKind::InterfaceAssignment))))
    } else {
        None
    }
}

fn relationship_assignment_fields(v: ToscaVersion, name: &str) -> (r: Option<FieldRule>)
    ensures
        r == schema_rule(v, DefKind::RelationshipAssignment, name@),
{
    if str_eq(name, "type") {
        Some(FieldRule::TypeRef(Entity::Relationship(RelationshipEntity), RelKind::HasType))
    } else if str_eq(name, "properties") {
        Some(FieldRule::Collection(RelKind::Assignment, ValueKind::Any))
    } else if str_eq(name, "attributes") {
        Some(FieldRule::Collection(RelKind::Assignment, ValueKind::Any))
    } else if str_eq(name, "interfaces") {
        Some(FieldRule::Collection(RelKind::Assignment, ValueKind::Def(slot(v, DefKind::InterfaceAssignment))))
    } else {
        None
    }
}

fn requirement_fields(v: ToscaVersion, name: &str) -> (r: Option<FieldRule>)
    ensures
        r == schema_rule(v, DefKind::Requirement, name@),
{
    if str_eq(name, "relationship") {
        Some(FieldRule::Field(RelKind::Definition, ValueKind::Def(slot(v, DefKind::Relationship))))
    } else if str_eq(name, "node") {
        Some(FieldRule::TypeRef(Entity::Node(NodeEntity), RelKind::ValidTargetNodeType))
    } else if str_eq(name, "capability") {
        Some(FieldRule::TypeRef(Entity::Capability(CapabilityEntity), RelKind::ValidCapabilityType))
    } else if str_eq(name, "occurrences") {
        Some(FieldRule::Ignore)
    } else {
        None
    }
}

fn requirement_assignment_fields(v: ToscaVersion, name: &str) -> (r: Option<FieldRule>)
    ensures
        r == schema_rule(v, DefKind::RequirementAssignment, name@),
{
    if str_eq(name, "node") {
        Some(FieldRule::DefRef(Entity::ServiceTemplate(ServiceTemplateEntity), Entity::Node(NodeEntity), RelKind::TargetNode))
    } else if str_eq(name, "capability") {
        Some(FieldRule::Field(RelKind::TargetCapability, ValueKind::String))
    } else if str_eq(name, "relationship") {
        Some(FieldRule::Field(RelKind::Assignment, ValueKind::Def(slot(v, DefKind::RelationshipAssignment))))
    } else if str_eq(name, "node_filter") {
        Some(FieldRule::Ignore)
    } else if str_eq(name, "occurrences") {
        Some(FieldRule::Ignore)
    } else {
        None
    }
}

fn workflow_fields(v: ToscaVersion, name: &str) -> (r: Option<FieldRule>)
    ensures
        r == schema_rule(v, DefKind::Workflow, name@),
{
    if str_eq(name, "description") {
        Some(FieldRule::Field(RelKind::Description, ValueKind::String))
    } else if str_eq(name, "metadata") {
        Some(FieldRule::Collection(RelKind::Metadata, ValueKind::Any))
    } else if str_eq(name, "inputs") {
        Some(FieldRule::Collection(RelKind::Definition, ValueKind::Def(slot(v, DefKind::Parameter))))
    } else if str_eq(name, "outputs") {
        Some(FieldRule::Collection(RelKind::Definition, ValueKind::Def(slot(v, DefKind::Parameter))))
    } else if str_eq(name, "precondition") {
        Some(FieldRule::Ignore)
    } else if str_eq(name, "steps") {
        Some(FieldRule::Collection(RelKind::Definition, ValueKind::Def(slot(v, DefKind::WorkflowStep))))
    } else if str_eq(name, "implementation") {
        Some(FieldRule::Field(RelKind::Definition, ValueKind::Def(slot(v, DefKind::Implementation))))
    } else {
        None
    }
}

fn workflow_step_fields(v: ToscaVersion, name: &str) -> (r: Option<FieldRule>)
    ensures
        r == schema_rule(v, DefKind::WorkflowStep, name@),
{
    if str_eq(name, "target") {
        Some(FieldRule::DefRef(Entity::ServiceTemplate(ServiceTemplateEntity), Entity::Node(NodeEntity), RelKind::TargetNode))
    } else if str_eq(name, "target_relationship") {
        Some(FieldRule::Field(RelKind::Definition, ValueKind::String))
    } else if str_eq(name, "filter") {
        Some(FieldRule::Ignore)
    } else if str_eq(name, "activities") {
        Some(FieldRule::List(RelKind::WorkflowActivity, ValueKind::Def(slot(v, DefKind::WorkflowActivity))))
    } else if str_eq(name, "on_success") {
        Some(FieldRule::Ignore)
    } else if str_eq(name, "on_failure") {
        Some(FieldRule::Ignore)
    } else {
        None
    }
}

fn workflow_delegate_activity_fields(v: ToscaVersion, name: &str) -> (r: Option<FieldRule>)
    ensures
        r == schema_rule(v, DefKind::WorkflowDelegateActivity, name@),
{
    if str_eq(name, "workflow") {
        Some(FieldRule::Field(RelKind::Description, ValueKind::String))
    } else if str_eq(name, "inputs") {
        Some(FieldRule::Collection(RelKind::Definition, ValueKind::Any))
    } else {
        None
    }
}

fn workflow_inline_activity_fields(v: ToscaVersion, name: &str) -> (r: Option<FieldRule>)
    ensures
        r == schema_rule(v, DefKind::WorkflowInlineActivity, name@),
{
    if str_eq(name, "workflow") {
        Some(FieldRule::Field(RelKind::Description, ValueKind::String))
    } else if str_eq(name, "inputs") {
        Some(FieldRule::Collection(RelKind::Definition, ValueKind::Any))
    } else {
        None
    }
}

fn workflow_call_operation_activity_fields(v: ToscaVersion, name: &str) -> (r: Option<FieldRule>)
    ensures
        r == schema_rule(v, DefKind::WorkflowCallOperationActivity, name@),
{
    if str_eq(name, "operation") {
        Some(FieldRule::Field(RelKind::Description, ValueKind::String))
    } else if str_eq(name, "inputs") {
        Some(FieldRule::Collection(RelKind::Definition, ValueKind::Any))
    } else {
        None
    }
}

fn function_signature_fields(v: ToscaVersion, name: &str) -> (r: Option<FieldRule>)
    ensures
        r == schema_rule(v, DefKind::FunctionSignature, name@),
{
    if str_eq(name, "arguments") {
        Some(FieldRule::List(RelKind::FunctionArgument, ValueKind::Def(slot(v, DefKind::Schema))))
    } else if str_eq(name, "optional_arguments") {
        Some(FieldRule::List(RelKind::FunctionOptionalArgument, ValueKind::Def(slot(v, DefKind::Schema))))
    } else if str_eq(name, "variadic") {
        Some(FieldRule::Field(RelKind::Definition, ValueKind::Bool))
    } else if str_eq(name, "result") {
        Some(FieldRule::Field(RelKind::Definition, ValueKind::Def(slot(v, DefKind::Schema))))
    } else if str_eq(name, "implementation") {
        Some(FieldRule::Field(RelKind::Definition, ValueKind::Def(slot(v, DefKind::Implementation))))
    } else {
        None
    }
}

fn function_fields(v: ToscaVersion, name: &str) -> (r: Option<FieldRule>)
    ensures
        r == schema_rule(v, DefKind::Function, name@),
{
    if str_eq(name, "signatures") {
        Some(FieldRule::List(RelKind::FunctionSignature, ValueKind::Def(slot(v, DefKind::FunctionSignature))))
    } else if str_eq(name, "description") {
        Some(FieldRule::Field(RelKind::Description, ValueKind::String))
    } else if str_eq(name, "metadata") {
        Some(FieldRule::Collection(RelKind::Metadata, ValueKind::Any))
    } else {
        None
    }
}

fn repository_fields(v: ToscaVersion, name: &str) -> (r: Option<FieldRule>)
    ensures
        r == schema_rule(v, DefKind::Repository, name@),
{
    if str_eq(name, "url") {
        Some(FieldRule::Field(RelKind::RepositoryUrl, ValueKind::String))
    } else if str_eq(name, "metadata") {
        Some(FieldRule::Collection(RelKind::Metadata, ValueKind::Any))
    } else if str_eq(name, "description") {
        Some(FieldRule::Field(RelKind::Description, ValueKind::String))
    } else {
        None
    }
}

fn file13_fields(v: ToscaVersion, name: &str) -> (r: Option<FieldRule>)
    ensures
        r == schema_rule(v, DefKind::File13, name@),
{
    if str_eq(name, "tosca_definitions_version") {
        Some(FieldRule::Ignore)
    } else if str_eq(name, "namespace") {
        Some(FieldRule::Field(RelKind::Profile, ValueKind::String))
    } else if str_eq(name, "metadata") {
        Some(FieldRule::Collection(RelKind::Metadata, ValueKind::Any))
    } else if str_eq(name, "description") {
        Some(FieldRule::Field(RelKind::Description, ValueKind::String))
    } else if str_eq(name, "dsl_definitions") {
        Some(FieldRule::Ignore)
    } else if str_eq(name, "imports") {
        Some(FieldRule::List(RelKind::Import, ValueKind::Def(slot(v, DefKind::Import))))
    } else if str_eq(name, "artifact_types") {
        Some(FieldRule::Collection(RelKind::Type, ValueKind::Def(slot(v, DefKind::ArtifactType))))
    } else if str_eq(name, "data_types") {
        Some(FieldRule::Collection(RelKind::Type, ValueKind::Def(slot(v, DefKind::DataType))))
    } else if str_eq(name, "capability_types") {
        Some(FieldRule::Collection(RelKind::Type, ValueKind::Def(slot(v, DefKind::CapabilityType))))
    } else if str_eq(name, "interface_types") {
        Some(FieldRule::Collection(RelKind::Type, ValueKind::Def(slot(v, DefKind::InterfaceType))))
    } else if str_eq(name, "relationship_types") {
        Some(FieldRule::Collection(RelKind::Type, ValueKind::Def(slot(v, DefKind::RelationshipType))))
    } else if str_eq(name, "node_types") {
        Some(FieldRule::Collection(RelKind::Type, ValueKind::Def(slot(v, DefKind::NodeType))))
    } else if str_eq(name, "group_types") {
        Some(FieldRule::Collection(RelKind::Type, ValueKind::Def(slot(v, DefKind::GroupType))))
    } else if str_eq(name, "policy_types") {
        Some(FieldRule::Collection(RelKind::Type, ValueKind::Def(slot(v, DefKind::PolicyType))))
    } else if str_eq(name, "topology_template") {
        Some(FieldRule::Field(RelKind::ServiceTemplate, ValueKind::Def(slot(v, DefKind::ServiceTemplate))))
    } else {
        None
    }
}

fn import13_fields(v: ToscaVersion, name: &str) -> (r: Option<FieldRule>)
    ensures
        r == schema_rule(v, DefKind::Import13, name@),
{
    if str_eq(name, "file") {
        Some(FieldRule::Field(RelKind::ImportUrl, ValueKind::String))
    } else if str_eq(name, "repository") {
        Some(FieldRule::DefRef(Entity::File(FileEntity), Entity::Repository(RepositoryEntity), RelKind::Repository))
    } else if str_eq(name, "namespace_prefix") {
        Some(FieldRule::Field(RelKind::ImportNamespace, ValueKind::String))
    } else {
        None
    }
}

fn artifact13_fields(v: ToscaVersion, name: &str) -> (r: Option<FieldRule>)
    ensures
        r == schema_rule(v, DefKind::Artifact13, name@),
{
    if str_eq(name, "type") {
        Some(FieldRule::TypeRef(Entity::Artifact(ArtifactEntity), RelKind::HasType))
    } else if str_eq(name, "file") {
        Some(FieldRule::Field(RelKind::HasFile, ValueKind::String))
    } else if str_eq(name, "repository") {
        Some(FieldRule::Field(RelKind::Repository, ValueKind::String))
    } else if str_eq(name, "description") {
        Some(FieldRule::Field(RelKind::Description, ValueKind::String))
    } else if str_eq(name, "deploy_path") {
        Some(FieldRule::Field(RelKind::Definition, ValueKind::String))
    } else if str_eq(name, "artifact_version") {
        Some(FieldRule::Field(RelKind::Version, ValueKind::String))
    } else if str_eq(name, "checksum") {
        Some(FieldRule::Field(RelKind::Checksum, ValueKind::String))
    } else if str_eq(name, "checksum_algorithm") {
        Some(FieldRule::Field(RelKind::ChecksumAlgorithm, ValueKind::String))
    } else if str_eq(name, "properties") {
        Some(FieldRule::Collection(RelKind::Assignment, ValueKind::Any))
    } else {
        None
    }
}

fn implementation13_fields(v: ToscaVersion, name: &str) -> (r: Option<FieldRule>)
    ensures
        r == schema_rule(v, DefKind::Implementation13, name@),
{
    if str_eq(name, "primary") {
        Some(FieldRule::ArtifactRef(RelKind::PrimaryArtifact))
    } else if str_eq(name, "dependencies") {
        Some(FieldRule::ArtifactRefList(RelKind::PrimaryArtifact))
    } else if str_eq(name, "timeout") {
        Some(FieldRule::Field(RelKind::Definition, ValueKind::Int))
    } else if str_eq(name, "operation_host") {
        Some(FieldRule::Field(RelKind::Definition, ValueKind::String))
    } else {
        None
    }
}

fn relationship_type13_fields(v: ToscaVersion, name: &str) -> (r: Option<FieldRule>)
    ensures
        r == schema_rule(v, DefKind::RelationshipType13, name@),
{
    if str_eq(name, "derived_from") {
        Some(FieldRule::TypeRef(Entity::Relationship(RelationshipEntity), RelKind::DerivedFrom))
    } else if str_eq(name, "version") {
        Some(FieldRule::Field(RelKind::Version, ValueKind::String))
    } else if str_eq(name, "metadata") {
        Some(FieldRule::Collection(RelKind::Metadata, ValueKind::Any))
    } else if str_eq(name, "description") {
        Some(FieldRule::Field(RelKind::Description, ValueKind::String))
    } else if str_eq(name, "properties") {
        Some(FieldRule::Collection(RelKind::Definition, ValueKind::Def(slot(v, DefKind::Property))))
    } else if str_eq(name, "attributes") {
        Some(FieldRule::Collection(RelKind::Definition, ValueKind::Def(slot(v, DefKind::Attribute))))
    } else if str_eq(name, "interfaces") {
        Some(FieldRule::Collection(RelKind::Definition, ValueKind::Def(slot(v, DefKind::Interface))))
    } else if str_eq(name, "valid_target_types") {
        Some(FieldRule::TypeRefList(Entity::Capability(CapabilityEntity), RelKind::ValidCapabilityType))
    } else {
        None
    }
}

/// The rule by which a definition of kind `k` reads its field `name`, under
/// version `v`.
pub fn field_rule(v: ToscaVersion, k: DefKind, name: &str) -> (r: Option<FieldRule>)
    ensures
        r == schema_rule(v, k, name@),
{
    match k {
        DefKind::File => file_fields(v, name),
        DefKind::Import => import_fields(v, name),
        DefKind::ServiceTemplate => service_template_fields(v, name),
        DefKind::SubstitutionMapping => substitution_mapping_fields(v, name),
        DefKind::NodeType => node_type_fields(v, name),
        DefKind::NodeTemplate => node_template_fields(v, name),
        DefKind::DataType => data_type_fields(v, name),
        DefKind::Schema => schema_fields(v, name),
        DefKind::Attribute => attribute_fields(v, name),
        DefKind::Property => property_fields(v, name),
        DefKind::Parameter => parameter_fields(v, name),
        DefKind::ArtifactType => artifact_type_fields(v, name),
        DefKind::Artifact => artifact_fields(v, name),
        DefKind::Implementation => implementation_fields(v, name),
        DefKind::CapabilityType => capability_type_fields(v, name),
        DefKind::Capability => capability_fields(v, name),
        DefKind::CapabilityAssignment => capability_assignment_fields(v, name),
        DefKind::GroupType => group_type_fields(v, name),
        DefKind::Group => group_fields(v, name),
        DefKind::PolicyType => policy_type_fields(v, name),
        DefKind::Policy => policy_fields(v, name),
        DefKind::PolicyTrigger => policy_trigger_fields(v, name),
        DefKind::InterfaceType => interface_type_fields(v, name),
        DefKind::Interface => interface_fields(v, name),
        DefKind::InterfaceAssignment => interface_assignment_fields(v, name),
        DefKind::Operation => operation_fields(v, name),
        DefKind::OperationAssignment => operation_assignment_fields(v, name),
        DefKind::Notification => notification_fields(v, name),
        DefKind::NotificationAssignment => notification_assignment_fields(v, name),
        DefKind::RelationshipType => relationship_type_fields(v, name),
        DefKind::RelationshipTemplate => relationship_template_fields(v, name),
        DefKind::Relationship => relationship_fields(v, name),
        DefKind::RelationshipAssignment => relationship_assignment_fields(v, name),
        DefKind::Requirement => requirement_fields(v, name),
        DefKind::RequirementAssignment => requirement_assignment_fields(v, name),
        DefKind::Workflow => workflow_fields(v, name),
        DefKind::WorkflowStep => workflow_step_fields(v, name),
        DefKind::WorkflowActivity => None,
        DefKind::WorkflowDelegateActivity => workflow_delegate_activity_fields(v, name),
        DefKind::WorkflowInlineActivity => workflow_inline_activity_fields(v, name),
        DefKind::WorkflowSetStateActivity => None,
        DefKind::WorkflowCallOperationActivity => workflow_call_operation_activity_fields(v, name),
        DefKind::FunctionSignature => function_signature_fields(v, name),
        DefKind::Function => function_fields(v, name),
        DefKind::Repository => repository_fields(v, name),
        DefKind::File13 => file13_fields(v, name),
        DefKind::Import13 => import13_fields(v, name),
        DefKind::Artifact13 => artifact13_fields(v, name),
        DefKind::Implementation13 => implementation13_fields(v, name),
        DefKind::RelationshipType13 => relationship_type13_fields(v, name),
    }
}

/// The names of the fields present in a definition, as text.
pub open spec fn field_names(fields: Seq<String>) -> Seq<Seq<char>> {
    fields.map_values(|s: String| s@)
}

/// Whether field `name` is among `fields`.
pub fn has_field(fields: &Vec<String>, name: &str) -> (r: bool)
    ensures
        r == field_names(fields@).contains(name@),
{
    let mut k: usize = 0;
    while k < fields.len()
        invariant
            k <= fields@.len(),
            forall|j: int| 0 <= j < k ==> field_names(fields@)[j] != name@,
        decreases fields@.len() - k,
    {
        if str_eq(fields[k].as_str(), name) {
            assert(field_names(fields@)[k as int] == name@);
            return true;
        }
        k = k + 1;
    }
    proof {
        if field_names(fields@).contains(name@) {
            let j = choose|j: int| 0 <= j < field_names(fields@).len() && field_names(fields@)[j] == name@;
            assert(false);
        }
    }
    false
}

/// The errors that the field checks of kind `k` find among the present
/// `fields`, in the order of the checks.
pub open spec fn validation_errors(k: DefKind, fields: Seq<Seq<char>>) -> Seq<ErrorView> {
    match k {
        DefKind::Import => (if fields.contains("url"@) && fields.contains("profile"@) { seq![ErrorView::Custom("url and profile are mutually exclusive"@)] } else { Seq::empty() }) + (if !fields.contains("url"@) && !fields.contains("profile"@) { seq![ErrorView::MissingField("url or profile"@)] } else { Seq::empty() }) + (if fields.contains("repository"@) && !fields.contains("url"@) { seq![ErrorView::Custom("can only be used when a url is specified"@)] } else { Seq::empty() }),
        DefKind::SubstitutionMapping => (if fields.contains("node_type"@) { Seq::empty() } else { seq![ErrorView::MissingField("node_type"@)] }),
        DefKind::Schema => (if fields.contains("type"@) { Seq::empty() } else { seq![ErrorView::MissingField("type"@)] }),
        DefKind::Attribute => (if fields.contains("type"@) { Seq::empty() } else { seq![ErrorView::MissingField("type"@)] }),
        DefKind::Property => (if fields.contains("type"@) { Seq::empty() } else { seq![ErrorView::MissingField("type"@)] }),
        DefKind::Artifact => (if fields.contains("type"@) { Seq::empty() } else { seq![ErrorView::MissingField("type"@)] }) + (if fields.contains("file"@) { Seq::empty() } else { seq![ErrorView::MissingField("file"@)] }),
        DefKind::Capability => (if fields.contains("type"@) { Seq::empty() } else { seq![ErrorView::MissingField("type"@)] }),
        DefKind::Group => (if fields.contains("type"@) { Seq::empty() } else { seq![ErrorView::MissingField("type"@)] }),
        DefKind::Policy => (if fields.contains("type"@) { Seq::empty() } else { seq![ErrorView::MissingField("type"@)] }),
        DefKind::PolicyTrigger => (if fields.contains("event"@) { Seq::empty() } else { seq![ErrorView::MissingField("event"@)] }) + (if fields.contains("action"@) { Seq::empty() } else { seq![ErrorView::MissingField("action"@)] }),
        DefKind::Interface => (if fields.contains("type"@) { Seq::empty() } else { seq![ErrorView::MissingField("type"@)] }),
        DefKind::RelationshipTemplate => (if fields.contains("type"@) { Seq::empty() } else { seq![ErrorView::MissingField("type"@)] }),
        DefKind::Relationship => (if fields.contains("type"@) { Seq::empty() } else { seq![ErrorView::MissingField("type"@)] }),
        DefKind::Requirement => (if fields.contains("capability"@) { Seq::empty() } else { seq![ErrorView::MissingField("capability"@)] }),
        DefKind::Workflow => (if fields.contains("steps"@) && fields.contains("implementation"@) { seq![ErrorView::Custom("steps and implementation are mutually exclusive"@)] } else { Seq::empty() }) + (if !fields.contains("steps"@) && !fields.contains("implementation"@) { seq![ErrorView::MissingField("steps or implementation"@)] } else { Seq::empty() }),
        DefKind::WorkflowStep => (if fields.contains("target"@) { Seq::empty() } else { seq![ErrorView::MissingField("target"@)] }) + (if fields.contains("activities"@) { Seq::empty() } else { seq![ErrorView::MissingField("activities"@)] }),
        DefKind::WorkflowDelegateActivity => (if fields.contains("workflow"@) { Seq::empty() } else { seq![ErrorView::MissingField("workflow"@)] }),
        DefKind::WorkflowInlineActivity => (if fields.contains("workflow"@) { Seq::empty() } else { seq![ErrorView::MissingField("workflow"@)] }),
        DefKind::WorkflowCallOperationActivity => (if fields.contains("operation"@) { Seq::empty() } else { seq![ErrorView::MissingField("operation"@)] }),
        DefKind::Function => (if fields.contains("signatures"@) { Seq::empty() } else { seq![ErrorView::MissingField("signatures"@)] }),
        DefKind::Repository => (if fields.contains("url"@) { Seq::empty() } else { seq![ErrorView::MissingField("url"@)] }),
        DefKind::Import13 => (if fields.contains("file"@) { Seq::empty() } else { seq![ErrorView::MissingField("file"@)] }),
        DefKind::Artifact13 => (if fields.contains("type"@) { Seq::empty() } else { seq![ErrorView::MissingField("type"@)] }) + (if fields.contains("file"@) { Seq::empty() } else { seq![ErrorView::MissingField("file"@)] }),
        _ => Seq::empty(),
    }
}

/// The views of a sequence of errors.
pub open spec fn error_views(errs: Seq<ParseError>) -> Seq<ErrorView> {
    errs.map_values(|e: ParseError| e@)
}

/// Runs the field checks of kind `k` over the present `fields`.
pub fn validate(k: DefKind, fields: &Vec<String>) -> (errs: Vec<ParseError>)
    ensures
        error_views(errs@) == validation_errors(k, field_names(fields@)),
{
    let mut errs: Vec<ParseError> = Vec::new();
    match k {
        DefKind::Import => {
            if has_field(fields, "url") && has_field(fields, "profile") { errs.push(ParseError::Custom(String::from_str("url and profile are mutually exclusive"))); }
            assert(error_views(errs@) =~= (if field_names(fields@).contains("url"@) && field_names(fields@).contains("profile"@) { seq![ErrorView::Custom("url and profile are mutually exclusive"@)] } else { Seq::empty() }));
            if !has_field(fields, "url") && !has_field(fields, "profile") { errs.push(ParseError::MissingField("url or profile")); }
            assert(error_views(errs@) =~= (if field_names(fields@).contains("url"@) && field_names(fields@).contains("profile"@) { seq![ErrorView::Custom("url and profile are mutually exclusive"@)] } else { Seq::empty() }) + (if !field_names(fields@).contains("url"@) && !field_names(fields@).contains("profile"@) { seq![ErrorView::MissingField("url or profile"@)] } else { Seq::empty() }));
            if has_field(fields, "repository") && !has_field(fields, "url") { errs.push(ParseError::Custom(String::from_str("can only be used when a url is specified"))); }
            assert(error_views(errs@) =~= (if field_names(fields@).contains("url"@) && field_names(fields@).contains("profile"@) { seq![ErrorView::Custom("url and profile are mutually exclusive"@)] } else { Seq::empty() }) + (if !field_names(fields@).contains("url"@) && !field_names(fields@).contains("profile"@) { seq![ErrorView::MissingField("url or profile"@)] } else { Seq::empty() }) + (if field_names(fields@).contains("repository"@) && !field_names(fields@).contains("url"@) { seq![ErrorView::Custom("can only be used when a url is specified"@)] } else { Seq::empty() }));
        },
        DefKind::SubstitutionMapping => {
            if !has_field(fields, "node_type") { errs.push(ParseError::MissingField("node_type")); }
            assert(error_views(errs@) =~= (if field_names(fields@).contains("node_type"@) { Seq::empty() } else { seq![ErrorView::MissingField("node_type"@)] }));
        },
        DefKind::Schema => {
            if !has_field(fields, "type") { errs.push(ParseError::MissingField("type")); }
            assert(error_views(errs@) =~= (if field_names(fields@).contains("type"@) { Seq::empty() } else { seq![ErrorView::MissingField("type"@)] }));
        },
        DefKind::Attribute => {
            if !has_field(fields, "type") { errs.push(ParseError::MissingField("type")); }
            assert(error_views(errs@) =~= (if field_names(fields@).contains("type"@) { Seq::empty() } else { seq![ErrorView::MissingField("type"@)] }));
        },
        DefKind::Property => {
            if !has_field(fields, "type") { errs.push(ParseError::MissingField("type")); }
            assert(error_views(errs@) =~= (if field_names(fields@).contains("type"@) { Seq::empty() } else { seq![ErrorView::MissingField("type"@)] }));
        },
        DefKind::Artifact => {
            if !has_field(fields, "type") { errs.push(ParseError::MissingField("type")); }
            assert(error_views(errs@) =~= (if field_names(fields@).contains("type"@) { Seq::empty() } else { seq![ErrorView::MissingField("type"@)] }));
            if !has_field(fields, "file") { errs.push(ParseError::MissingField("file")); }
            assert(error_views(errs@) =~= (if field_names(fields@).contains("type"@) { Seq::empty() } else { seq![ErrorView::MissingField("type"@)] }) + (if field_names(fields@).contains("file"@) { Seq::empty() } else { seq![ErrorView::MissingField("file"@)] }));
        },
        DefKind::Capability => {
            if !has_field(fields, "type") { errs.push(ParseError::MissingField("type")); }
            assert(error_views(errs@) =~= (if field_names(fields@).contains("type"@) { Seq::empty() } else { seq![ErrorView::MissingField("type"@)] }));
        },
        DefKind::Group => {
            if !has_field(fields, "type") { errs.push(ParseError::MissingField("type")); }
            assert(error_views(errs@) =~= (if field_names(fields@).contains("type"@) { Seq::empty() } else { seq![ErrorView::MissingField("type"@)] }));
        },
        DefKind::Policy => {
            if !has_field(fields, "type") { errs.push(ParseError::MissingField("type")); }
            assert(error_views(errs@) =~= (if field_names(fields@).contains("type"@) { Seq::empty() } else { seq![ErrorView::MissingField("type"@)] }));
        },
        DefKind::PolicyTrigger => {
            if !has_field(fields, "event") { errs.push(ParseError::MissingField("event")); }
            assert(error_views(errs@) =~= (if field_names(fields@).contains("event"@) { Seq::empty() } else { seq![ErrorView::MissingField("event"@)] }));
            if !has_field(fields, "action") { errs.push(ParseError::MissingField("action")); }
            assert(error_views(errs@) =~= (if field_names(fields@).contains("event"@) { Seq::empty() } else { seq![ErrorView::MissingField("event"@)] }) + (if field_names(fields@).contains("action"@) { Seq::empty() } else { seq![ErrorView::MissingField("action"@)] }));
        },
        DefKind::Interface => {
            if !has_field(fields, "type") { errs.push(ParseError::MissingField("type")); }
            assert(error_views(errs@) =~= (if field_names(fields@).contains("type"@) { Seq::empty() } else { seq![ErrorView::MissingField("type"@)] }));
        },
        DefKind::RelationshipTemplate => {
            if !has_field(fields, "type") { errs.push(ParseError::MissingField("type")); }
            assert(error_views(errs@) =~= (if field_names(fields@).contains("type"@) { Seq::empty() } else { seq![ErrorView::MissingField("type"@)] }));
        },
        DefKind::Relationship => {
            if !has_field(fields, "type") { errs.push(ParseError::MissingField("type")); }
            assert(error_views(errs@) =~= (if field_names(fields@).contains("type"@) { Seq::empty() } else { seq![ErrorView::MissingField("type"@)] }));
        },
        DefKind::Requirement => {
            if !has_field(fields, "capability") { errs.push(ParseError::MissingField("capability")); }
            assert(error_views(errs@) =~= (if field_names(fields@).contains("capability"@) { Seq::empty() } else { seq![ErrorView::MissingField("capability"@)] }));
        },
        DefKind::Workflow => {
            if has_field(fields, "steps") && has_field(fields, "implementation") { errs.push(ParseError::Custom(String::from_str("steps and implementation are mutually exclusive"))); }
            assert(error_views(errs@) =~= (if field_names(fields@).contains("steps"@) && field_names(fields@).contains("implementation"@) { seq![ErrorView::Custom("steps and implementation are mutually exclusive"@)] } else { Seq::empty() }));
            if !has_field(fields, "steps") && !has_field(fields, "implementation") { errs.push(ParseError::MissingField("steps or implementation")); }
            assert(error_views(errs@) =~= (if field_names(fields@).contains("steps"@) && field_names(fields@).contains("implementation"@) { seq![ErrorView::Custom("steps and implementation are mutually exclusive"@)] } else { Seq::empty() }) + (if !field_names(fields@).contains("steps"@) && !field_names(fields@).contains("implementation"@) { seq![ErrorView::MissingField("steps or implementation"@)] } else { Seq::empty() }));
        },
        DefKind::WorkflowStep => {
            if !has_field(fields, "target") { errs.push(ParseError::MissingField("target")); }
            assert(error_views(errs@) =~= (if field_names(fields@).contains("target"@) { Seq::empty() } else { seq![ErrorView::MissingField("target"@)] }));
            if !has_field(fields, "activities") { errs.push(ParseError::MissingField("activities")); }
            assert(error_views(errs@) =~= (if field_names(fields@).contains("target"@) { Seq::empty() } else { seq![ErrorView::MissingField("target"@)] }) + (if field_names(fields@).contains("activities"@) { Seq::empty() } else { seq![ErrorView::MissingField("activities"@)] }));
        },
        DefKind::WorkflowDelegateActivity => {
            if !has_field(fields, "workflow") { errs.push(ParseError::MissingField("workflow")); }
            assert(error_views(errs@) =~= (if field_names(fields@).contains("workflow"@) { Seq::empty() } else { seq![ErrorView::MissingField("workflow"@)] }));
        },
        DefKind::WorkflowInlineActivity => {
            if !has_field(fields, "workflow") { errs.push(ParseError::MissingField("workflow")); }
            assert(error_views(errs@) =~= (if field_names(fields@).contains("workflow"@) { Seq::empty() } else { seq![ErrorView::MissingField("workflow"@)] }));
        },
        DefKind::WorkflowCallOperationActivity => {
            if !has_field(fields, "operation") { errs.push(ParseError::MissingField("operation")); }
            assert(error_views(errs@) =~= (if field_names(fields@).contains("operation"@) { Seq::empty() } else { seq![ErrorView::MissingField("operation"@)] }));
        },
        DefKind::Function => {
            if !has_field(fields, "signatures") { errs.push(ParseError::MissingField("signatures")); }
            assert(error_views(errs@) =~= (if field_names(fields@).contains("signatures"@) { Seq::empty() } else { seq![ErrorView::MissingField("signatures"@)] }));
        },
        DefKind::Repository => {
            if !has_field(fields, "url") { errs.push(ParseError::MissingField("url")); }
            assert(error_views(errs@) =~= (if field_names(fields@).contains("url"@) { Seq::empty() } else { seq![ErrorView::MissingField("url"@)] }));
        },
        DefKind::Import13 => {
            if !has_field(fields, "file") { errs.push(ParseError::MissingField("file")); }
            assert(error_views(errs@) =~= (if field_names(fields@).contains("file"@) { Seq::empty() } else { seq![ErrorView::MissingField("file"@)] }));
        },
        DefKind::Artifact13 => {
            if !has_field(fields, "type") { errs.push(ParseError::MissingField("type")); }
            assert(error_views(errs@) =~= (if field_names(fields@).contains("type"@) { Seq::empty() } else { seq![ErrorView::MissingField("type"@)] }));
            if !has_field(fields, "file") { errs.push(ParseError::MissingField("file")); }
            assert(error_views(errs@) =~= (if field_names(fields@).contains("type"@) { Seq::empty() } else { seq![ErrorView::MissingField("type"@)] }) + (if field_names(fields@).contains("file"@) { Seq::empty() } else { seq![ErrorView::MissingField("file"@)] }));
        },
        _ => {
            assert(error_views(errs@) =~= Seq::empty());
        },
    }
    errs
}

} // verus!
