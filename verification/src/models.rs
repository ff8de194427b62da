//! The TOSCA vocabulary: the entities and relations that a parsed
//! document is made of.
use vstd::prelude::*;

verus! {

/// A version number as TOSCA writes it: `major.minor.fix.qualifier-build`.
#[derive(Debug)]
pub struct Version {
    pub minor: u64,
    pub major: u64,
    pub fix: u64,
    pub qualifier: String,
    pub build: String,
}

/// The units of a TOSCA `scalar-unit.size`.
#[derive(Debug)]
pub enum UnitSize {
    B,
    KB,
    KiB,
    MB,
    MiB,
    GB,
    GiB,
    TB,
    TiB,
}

#[derive(Debug, Default, PartialEq, Eq, Hash, Clone, Copy)]
pub struct ImportEntity;

#[derive(Debug, Default, PartialEq, Eq, Hash, Clone, Copy)]
pub struct FileEntity;

#[derive(Debug, Default, PartialEq, Eq, Hash, Clone, Copy)]
pub struct ServiceTemplateEntity;

#[derive(Debug, Default, PartialEq, Eq, Hash, Clone, Copy)]
pub struct SubstitutionMappingEntity;

#[derive(Debug, Default, PartialEq, Eq, Hash, Clone, Copy)]
pub struct RepositoryEntity;

#[derive(Debug, Default, PartialEq, Eq, Hash, Clone, Copy)]
pub struct NodeEntity;

#[derive(Debug, Default, PartialEq, Eq, Hash, Clone, Copy)]
pub struct DataEntity;

#[derive(Debug, Default, PartialEq, Eq, Hash, Clone, Copy)]
pub struct ArtifactEntity;

#[derive(Debug, Default, PartialEq, Eq, Hash, Clone, Copy)]
pub struct CapabilityEntity;

#[derive(Debug, Default, PartialEq, Eq, Hash, Clone, Copy)]
pub struct InterfaceEntity;

#[derive(Debug, Default, PartialEq, Eq, Hash, Clone, Copy)]
pub struct OperationEntity;

#[derive(Debug, Default, PartialEq, Eq, Hash, Clone, Copy)]
pub struct NotificationEntity;

#[derive(Debug, Default, PartialEq, Eq, Hash, Clone, Copy)]
pub struct RelationshipEntity;

#[derive(Debug, Default, PartialEq, Eq, Hash, Clone, Copy)]
pub struct RequirementEntity;

#[derive(Debug, Default, PartialEq, Eq, Hash, Clone, Copy)]
pub struct GroupEntity;

#[derive(Debug, Default, PartialEq, Eq, Hash, Clone, Copy)]
pub struct PolicyEntity;

#[derive(Debug, Default, PartialEq, Eq, Hash, Clone, Copy)]
pub struct PolicyTriggerEntity;

#[derive(Debug, Default, PartialEq, Eq, Hash, Clone, Copy)]
pub struct ImplementationEntity;

#[derive(Debug, Default, PartialEq, Eq, Hash, Clone, Copy)]
pub struct WorkflowEntity;

#[derive(Debug, Default, PartialEq, Eq, Hash, Clone, Copy)]
pub struct WorkflowStepEntity;

#[derive(Debug, Default, PartialEq, Eq, Hash, Clone, Copy)]
pub struct WorkflowDelegateActivityEntity;

#[derive(Debug, Default, PartialEq, Eq, Hash, Clone, Copy)]
pub struct WorkflowInlineActivityEntity;

#[derive(Debug, Default, PartialEq, Eq, Hash, Clone, Copy)]
pub struct WorkflowSetStateActivityEntity;

#[derive(Debug, Default, PartialEq, Eq, Hash, Clone, Copy)]
pub struct WorkflowCallOperationActivityEntity;

#[derive(Debug, Default, PartialEq, Eq, Hash, Clone, Copy)]
pub struct FunctionEntity;

#[derive(Debug, Default, PartialEq, Eq, Hash, Clone, Copy)]
pub struct FunctionSignatureEntity;

/// The support status of a definition.
#[derive(Debug, PartialEq, Eq, Hash, Clone, Copy)]
pub enum StatusEntity {
    Supported,
    Unsupported,
    Experimental,
    Deprecated,
}

/// The kinds of TOSCA entities that a document defines.
#[derive(Debug, PartialEq, Eq, Hash, Clone, Copy)]
pub enum Entity {
    Import(ImportEntity),
    File(FileEntity),
    ServiceTemplate(ServiceTemplateEntity),
    SubstitutionMapping(SubstitutionMappingEntity),
    Repository(RepositoryEntity),
    Node(NodeEntity),
    Data(DataEntity),
    Status(StatusEntity),
    Artifact(ArtifactEntity),
    Capability(CapabilityEntity),
    Interface(InterfaceEntity),
    Operation(OperationEntity),
    Notification(NotificationEntity),
    Relationship(RelationshipEntity),
    Requirement(RequirementEntity),
    Group(GroupEntity),
    Policy(PolicyEntity),
    PolicyTrigger(PolicyTriggerEntity),
    Implementation(ImplementationEntity),
    Workflow(WorkflowEntity),
    WorkflowStep(WorkflowStepEntity),
    WorkflowDelegateActivity(WorkflowDelegateActivityEntity),
    WorkflowInlineActivity(WorkflowInlineActivityEntity),
    WorkflowSetStateActivity(WorkflowSetStateActivityEntity),
    WorkflowCallOperationActivity(WorkflowCallOperationActivityEntity),
    Function(FunctionEntity),
    FunctionSignature(FunctionSignatureEntity),
}

/// How a reference names its target: by the name of a type, or by the name
/// of a definition.
#[derive(Debug, PartialEq, Eq, Hash, Clone, Copy)]
pub enum LookupKind {
    /// The target is found along a `Type(name)` relation.
    Type,
    /// The target is found along a `Definition(name)` relation.
    Definition,
}

/// Where a reference is to be resolved: start at an entity reached from the
/// file by `root`, find the entity `what` named along `what_rel`, and link
/// to it with `link_by`.
#[derive(Debug, PartialEq, Eq)]
pub struct SimpleLookuper {
    pub root: (Relation, Entity),
    pub what: Entity,
    pub what_rel: LookupKind,
    pub link_by: Relation,
}

#[derive(Debug, PartialEq, Eq)]
pub struct RefRelation {
    pub lookuper: Box<SimpleLookuper>,
}

#[derive(Debug, Default, PartialEq, Eq, Hash, Clone)]
pub struct ToscaDefinitionsVersionRelation;

#[derive(Debug, Default, PartialEq, Eq, Hash, Clone)]
pub struct ServiceTemplateRelation;

#[derive(Debug, Default, PartialEq, Eq, Hash, Clone)]
pub struct RepositoryRelation;

#[derive(Debug, Default, PartialEq, Eq, Hash, Clone)]
pub struct ProfileRelation;

#[derive(Debug, Default, PartialEq, Eq, Hash, Clone)]
pub struct DescriptionRelation;

#[derive(Debug, Default, PartialEq, Eq, Hash, Clone)]
pub struct NamespaceRelation;

#[derive(Debug, Default, PartialEq, Eq, Hash, Clone)]
pub struct VersionRelation;

#[derive(Debug, Default, PartialEq, Eq, Hash, Clone)]
pub struct ImportRelation(pub usize);

#[derive(Debug, Default, PartialEq, Eq, Hash, Clone)]
pub struct ImportTargetRelation;

#[derive(Debug, Default, PartialEq, Eq, Hash, Clone)]
pub struct ImportUrlRelation;

#[derive(Debug, Default, PartialEq, Eq, Hash, Clone)]
pub struct ImportFileRelation;

#[derive(Debug, Default, PartialEq, Eq, Hash, Clone)]
pub struct ImportProfileRelation;

#[derive(Debug, Default, PartialEq, Eq, Hash, Clone)]
pub struct ImportRepositoryRelation;

#[derive(Debug, Default, PartialEq, Eq, Hash, Clone)]
pub struct ImportNamespaceRelation;

#[derive(Debug, Default, PartialEq, Eq, Hash, Clone)]
pub struct TypeRelation(pub String);

#[derive(Debug, Default, PartialEq, Eq, Hash, Clone)]
pub struct DefinitionRelation(pub String);

#[derive(Debug, Default, PartialEq, Eq)]
pub struct OrderedDefinitionRelation(pub (String, usize));

#[derive(Debug, Default, PartialEq, Eq, Hash, Clone)]
pub struct AssignmentRelation(pub String);

#[derive(Debug, Default, PartialEq, Eq)]
pub struct OrderedAssignmentRelation(pub (String, usize));

#[derive(Debug, Default, PartialEq, Eq, Hash, Clone)]
pub struct ValidationRelation;

#[derive(Debug, Default, PartialEq, Eq, Hash, Clone)]
pub struct ValueRelation;

#[derive(Debug, Default, PartialEq, Eq, Hash, Clone)]
pub struct MappingRelation;

#[derive(Debug, Default, PartialEq, Eq, Hash, Clone)]
pub struct RequiredRelation;

#[derive(Debug, Default, PartialEq, Eq, Hash, Clone)]
pub struct StatusRelation;

#[derive(Debug, Default, PartialEq, Eq, Hash, Clone)]
pub struct DefaultRelation;

#[derive(Debug, Default, PartialEq, Eq, Hash, Clone)]
pub struct ExternalSchemaRelation;

#[derive(Debug, Default, PartialEq, Eq, Hash, Clone)]
pub struct MetadataRelation(pub String);

#[derive(Debug, Default, PartialEq, Eq, Hash, Clone)]
pub struct SchemaRelation;

#[derive(Debug, Default, PartialEq, Eq, Hash, Clone)]
pub struct KeySchemaRelation;

#[derive(Debug, Default, PartialEq, Eq, Hash, Clone)]
pub struct EntrySchemaRelation;

#[derive(Debug, Default, PartialEq, Eq, Hash, Clone)]
pub struct RootRelation;

#[derive(Debug, Default, PartialEq, Eq, Hash, Clone)]
pub struct HasTypeRelation;

#[derive(Debug, Default, PartialEq, Eq, Hash, Clone)]
pub struct DerivedFromRelation;

#[derive(Debug, Default, PartialEq, Eq, Hash, Clone)]
pub struct SubstitutesTypeRelation;

#[derive(Debug, Default, PartialEq, Eq, Hash, Clone)]
pub struct MimeTypeRelation;

#[derive(Debug, Default, PartialEq, Eq, Hash, Clone)]
pub struct FileExtRelation(pub usize);

#[derive(Debug, Default, PartialEq, Eq, Hash, Clone)]
pub struct HasFileRelation;

#[derive(Debug, Default, PartialEq, Eq, Hash, Clone)]
pub struct ChecksumRelation;

#[derive(Debug, Default, PartialEq, Eq, Hash, Clone)]
pub struct ChecksumAlgorithmRelation;

#[derive(Debug, Default, PartialEq, Eq, Hash, Clone)]
pub struct PrimaryArtifactRelation;

#[derive(Debug, Default, PartialEq, Eq, Hash, Clone)]
pub struct DependencyArtifactRelation(pub usize);

#[derive(Debug, Default, PartialEq, Eq, Hash, Clone)]
pub struct ValidSourceNodeTypeRelation;

#[derive(Debug, Default, PartialEq, Eq, Hash, Clone)]
pub struct ValidRelationshipTypeRelation;

#[derive(Debug, Default, PartialEq, Eq, Hash, Clone)]
pub struct DirectiveRelation(pub usize);

#[derive(Debug, Default, PartialEq, Eq, Hash, Clone)]
pub struct MemberNodeTemplateRelation;

#[derive(Debug, Default, PartialEq, Eq, Hash, Clone)]
pub struct MemberNodeTypeRelation;

#[derive(Debug, Default, PartialEq, Eq, Hash, Clone)]
pub struct ValidCapabilityTypeRelation;

#[derive(Debug, Default, PartialEq, Eq, Hash, Clone)]
pub struct ValidTargetNodeTypeRelation;

#[derive(Debug, Default, PartialEq, Eq, Hash, Clone)]
pub struct TargetNodeRelation;

#[derive(Debug, Default, PartialEq, Eq, Hash, Clone)]
pub struct TargetCapabilityRelation;

#[derive(Debug, Default, PartialEq, Eq, Hash, Clone)]
pub struct SubstitutionMappingRelation;

#[derive(Debug, Default, PartialEq, Eq, Hash, Clone)]
pub struct WorkflowActivityRelation(pub usize);

#[derive(Debug, Default, PartialEq, Eq, Hash, Clone)]
pub struct WorkflowRelation;

#[derive(Debug, Default, PartialEq, Eq, Hash, Clone)]
pub struct OperationRelation;

#[derive(Debug, Default, PartialEq, Eq, Hash, Clone)]
pub struct PolicyTriggerEventRelation;

#[derive(Debug, Default, PartialEq, Eq, Hash, Clone)]
pub struct FunctionArgumentRelation(pub usize);

#[derive(Debug, Default, PartialEq, Eq, Hash, Clone)]
pub struct FunctionOptionalArgumentRelation(pub usize);

#[derive(Debug, Default, PartialEq, Eq, Hash, Clone)]
pub struct FunctionSignatureRelation(pub usize);

#[derive(Debug, Default, PartialEq, Eq, Hash, Clone)]
pub struct RepositoryUrlRelation;

/// The kinds of edges between TOSCA entities.
#[derive(Debug, PartialEq, Eq)]
pub enum Relation {
    Ref(RefRelation),
    ToscaDefinitionsVersion(ToscaDefinitionsVersionRelation),
    ServiceTemplate(ServiceTemplateRelation),
    Repository(RepositoryRelation),
    Profile(ProfileRelation),
    Description(DescriptionRelation),
    Namespace(NamespaceRelation),
    Version(VersionRelation),
    Import(ImportRelation),
    ImportTarget(ImportTargetRelation),
    ImportUrl(ImportUrlRelation),
    ImportFile(ImportFileRelation),
    ImportProfile(ImportProfileRelation),
    ImportRepository(ImportRepositoryRelation),
    ImportNamespace(ImportNamespaceRelation),
    Type(TypeRelation),
    Definition(DefinitionRelation),
    OrderedDefinition(OrderedDefinitionRelation),
    Assignment(AssignmentRelation),
    OrderedAssignment(OrderedAssignmentRelation),
    Validation(ValidationRelation),
    Value(ValueRelation),
    Mapping(MappingRelation),
    Required(RequiredRelation),
    Status(StatusRelation),
    Default(DefaultRelation),
    ExternalSchema(ExternalSchemaRelation),
    Metadata(MetadataRelation),
    Schema(SchemaRelation),
    KeySchema(KeySchemaRelation),
    EntrySchema(EntrySchemaRelation),
    Root(RootRelation),
    HasType(HasTypeRelation),
    DerivedFrom(DerivedFromRelation),
    SubstitutesType(SubstitutesTypeRelation),
    MimeType(MimeTypeRelation),
    FileExt(FileExtRelation),
    HasFile(HasFileRelation),
    Checksum(ChecksumRelation),
    ChecksumAlgorithm(ChecksumAlgorithmRelation),
    PrimaryArtifact(PrimaryArtifactRelation),
    DependencyArtifact(DependencyArtifactRelation),
    ValidSourceNodeType(ValidSourceNodeTypeRelation),
    ValidRelationshipType(ValidRelationshipTypeRelation),
    Directive(DirectiveRelation),
    MemberNodeTemplate(MemberNodeTemplateRelation),
    MemberNodeType(MemberNodeTypeRelation),
    ValidCapabilityType(ValidCapabilityTypeRelation),
    ValidTargetNodeType(ValidTargetNodeTypeRelation),
    TargetNode(TargetNodeRelation),
    TargetCapability(TargetCapabilityRelation),
    SubstitutionMapping(SubstitutionMappingRelation),
    WorkflowActivity(WorkflowActivityRelation),
    Workflow(WorkflowRelation),
    Operation(OperationRelation),
    PolicyTriggerEvent(PolicyTriggerEventRelation),
    FunctionArgument(FunctionArgumentRelation),
    FunctionOptionalArgument(FunctionOptionalArgumentRelation),
    FunctionSignature(FunctionSignatureRelation),
    RepositoryUrl(RepositoryUrlRelation),
}

/// A relation with its names taken as text: what contracts compare.
pub enum RelationView {
    Ref(RefRelation),
    ToscaDefinitionsVersion,
    ServiceTemplate,
    Repository,
    Profile,
    Description,
    Namespace,
    Version,
    Import(usize),
    ImportTarget,
    ImportUrl,
    ImportFile,
    ImportProfile,
    ImportRepository,
    ImportNamespace,
    Type(Seq<char>),
    Definition(Seq<char>),
    OrderedDefinition(Seq<char>, usize),
    Assignment(Seq<char>),
    OrderedAssignment(Seq<char>, usize),
    Validation,
    Value,
    Mapping,
    Required,
    Status,
    Default,
    ExternalSchema,
    Metadata(Seq<char>),
    Schema,
    KeySchema,
    EntrySchema,
    Root,
    HasType,
    DerivedFrom,
    SubstitutesType,
    MimeType,
    FileExt(usize),
    HasFile,
    Checksum,
    ChecksumAlgorithm,
    PrimaryArtifact,
    DependencyArtifact(usize),
    ValidSourceNodeType,
    ValidRelationshipType,
    Directive(usize),
    MemberNodeTemplate,
    MemberNodeType,
    ValidCapabilityType,
    ValidTargetNodeType,
    TargetNode,
    TargetCapability,
    SubstitutionMapping,
    WorkflowActivity(usize),
    Workflow,
    Operation,
    PolicyTriggerEvent,
    FunctionArgument(usize),
    FunctionOptionalArgument(usize),
    FunctionSignature(usize),
    RepositoryUrl,
}

impl View for Relation {
    type V = RelationView;

    open spec fn view(&self) -> RelationView {
        match *self {
            Relation::Ref(r) => RelationView::Ref(r),
            Relation::ToscaDefinitionsVersion(_) => RelationView::ToscaDefinitionsVersion,
            Relation::ServiceTemplate(_) => RelationView::ServiceTemplate,
            Relation::Repository(_) => RelationView::Repository,
            Relation::Profile(_) => RelationView::Profile,
            Relation::Description(_) => RelationView::Description,
            Relation::Namespace(_) => RelationView::Namespace,
            Relation::Version(_) => RelationView::Version,
            Relation::Import(x) => RelationView::Import(x.0),
            Relation::ImportTarget(_) => RelationView::ImportTarget,
            Relation::ImportUrl(_) => RelationView::ImportUrl,
            Relation::ImportFile(_) => RelationView::ImportFile,
            Relation::ImportProfile(_) => RelationView::ImportProfile,
            Relation::ImportRepository(_) => RelationView::ImportRepository,
            Relation::ImportNamespace(_) => RelationView::ImportNamespace,
            Relation::Type(x) => RelationView::Type(x.0@),
            Relation::Definition(x) => RelationView::Definition(x.0@),
            Relation::OrderedDefinition(x) => RelationView::OrderedDefinition(x.0.0@, x.0.1),
            Relation::Assignment(x) => RelationView::Assignment(x.0@),
            Relation::OrderedAssignment(x) => RelationView::OrderedAssignment(x.0.0@, x.0.1),
            Relation::Validation(_) => RelationView::Validation,
            Relation::Value(_) => RelationView::Value,
            Relation::Mapping(_) => RelationView::Mapping,
            Relation::Required(_) => RelationView::Required,
            Relation::Status(_) => RelationView::Status,
            Relation::Default(_) => RelationView::Default,
            Relation::ExternalSchema(_) => RelationView::ExternalSchema,
            Relation::Metadata(x) => RelationView::Metadata(x.0@),
            Relation::Schema(_) => RelationView::Schema,
            Relation::KeySchema(_) => RelationView::KeySchema,
            Relation::EntrySchema(_) => RelationView::EntrySchema,
            Relation::Root(_) => RelationView::Root,
            Relation::HasType(_) => RelationView::HasType,
            Relation::DerivedFrom(_) => RelationView::DerivedFrom,
            Relation::SubstitutesType(_) => RelationView::SubstitutesType,
            Relation::MimeType(_) => RelationView::MimeType,
            Relation::FileExt(x) => RelationView::FileExt(x.0),
            Relation::HasFile(_) => RelationView::HasFile,
            Relation::Checksum(_) => RelationView::Checksum,
            Relation::ChecksumAlgorithm(_) => RelationView::ChecksumAlgorithm,
            Relation::PrimaryArtifact(_) => RelationView::PrimaryArtifact,
            Relation::DependencyArtifact(x) => RelationView::DependencyArtifact(x.0),
            Relation::ValidSourceNodeType(_) => RelationView::ValidSourceNodeType,
            Relation::ValidRelationshipType(_) => RelationView::ValidRelationshipType,
            Relation::Directive(x) => RelationView::Directive(x.0),
            Relation::MemberNodeTemplate(_) => RelationView::MemberNodeTemplate,
            Relation::MemberNodeType(_) => RelationView::MemberNodeType,
            Relation::ValidCapabilityType(_) => RelationView::ValidCapabilityType,
            Relation::ValidTargetNodeType(_) => RelationView::ValidTargetNodeType,
            Relation::TargetNode(_) => RelationView::TargetNode,
            Relation::TargetCapability(_) => RelationView::TargetCapability,
            Relation::SubstitutionMapping(_) => RelationView::SubstitutionMapping,
            Relation::WorkflowActivity(x) => RelationView::WorkflowActivity(x.0),
            Relation::Workflow(_) => RelationView::Workflow,
            Relation::Operation(_) => RelationView::Operation,
            Relation::PolicyTriggerEvent(_) => RelationView::PolicyTriggerEvent,
            Relation::FunctionArgument(x) => RelationView::FunctionArgument(x.0),
            Relation::FunctionOptionalArgument(x) => RelationView::FunctionOptionalArgument(x.0),
            Relation::FunctionSignature(x) => RelationView::FunctionSignature(x.0),
            Relation::RepositoryUrl(_) => RelationView::RepositoryUrl,
        }
    }
}

} // verus!
