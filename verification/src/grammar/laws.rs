//! What the grammar's tables promise, stated as laws on their own terms:
//! which fields each kind of definition has and how each is read, which
//! entity each kind creates, which relation each kind of link makes, which
//! forms TOSCA 1.3 reads in place of the TOSCA 2.0 ones, and which field
//! checks each kind of definition makes.
use vstd::prelude::*;

use crate::ast::{added_error, Ast, AstEntity, ErrorView, ParseError};
use crate::grammar::parse::{activity_kind, value_outcome};
use crate::grammar::value::status_named;
use crate::yaml::{yaml_map, yaml_str};
use crate::grammar::{
    entity_of, key_index, key_name, relation_view_for, schema_rule, spec_slot, validation_errors, version_name, DefKind,
    FieldRule, RelKey, RelKind, ToscaVersion, ValueKind,
};
use crate::models::{
    ArtifactEntity, CapabilityEntity, DataEntity, FileEntity, FunctionEntity, FunctionSignatureEntity, GroupEntity, ImplementationEntity, ImportEntity, InterfaceEntity, NodeEntity, NotificationEntity, OperationEntity, PolicyEntity, PolicyTriggerEntity, RelationshipEntity, RepositoryEntity, RequirementEntity, ServiceTemplateEntity, SubstitutionMappingEntity, WorkflowCallOperationActivityEntity, WorkflowDelegateActivityEntity, WorkflowEntity, WorkflowInlineActivityEntity, WorkflowSetStateActivityEntity, WorkflowStepEntity,
    Entity, Relation, RelationView, StatusEntity,
};

verus! {

/// The fields of a file definition, `tosca_definitions_version`, `dsl_definitions`, `profile`, `metadata`, `description`, `imports`, `service_template`, `node_types`, `data_types`, `artifact_types`, `capability_types`, `relationship_types`, `group_types`, `policy_types`, `interface_types`, each
/// with the rule it is read by; a file has no other field.
pub proof fn law_file_fields(v: ToscaVersion, name: Seq<char>)
    ensures
        schema_rule(v, DefKind::File, "tosca_definitions_version"@) == Some(FieldRule::Ignore),
        schema_rule(v, DefKind::File, "dsl_definitions"@) == Some(FieldRule::Ignore),
        schema_rule(v, DefKind::File, "profile"@) == Some(FieldRule::Field(RelKind::Profile, ValueKind::String)),
        schema_rule(v, DefKind::File, "metadata"@) == Some(FieldRule::Collection(RelKind::Metadata, ValueKind::Any)),
        schema_rule(v, DefKind::File, "description"@) == Some(FieldRule::Field(RelKind::Description, ValueKind::String)),
        schema_rule(v, DefKind::File, "imports"@) == Some(FieldRule::List(RelKind::Import, ValueKind::Def(spec_slot(v, DefKind::Import)))),
        schema_rule(v, DefKind::File, "service_template"@) == Some(FieldRule::Field(RelKind::ServiceTemplate, ValueKind::Def(spec_slot(v, DefKind::ServiceTemplate)))),
        schema_rule(v, DefKind::File, "node_types"@) == Some(FieldRule::Collection(RelKind::Type, ValueKind::Def(spec_slot(v, DefKind::NodeType)))),
        schema_rule(v, DefKind::File, "data_types"@) == Some(FieldRule::Collection(RelKind::Type, ValueKind::Def(spec_slot(v, DefKind::DataType)))),
        schema_rule(v, DefKind::File, "artifact_types"@) == Some(FieldRule::Collection(RelKind::Type, ValueKind::Def(spec_slot(v, DefKind::ArtifactType)))),
        schema_rule(v, DefKind::File, "capability_types"@) == Some(FieldRule::Collection(RelKind::Type, ValueKind::Def(spec_slot(v, DefKind::CapabilityType)))),
        schema_rule(v, DefKind::File, "relationship_types"@) == Some(FieldRule::Collection(RelKind::Type, ValueKind::Def(spec_slot(v, DefKind::RelationshipType)))),
        schema_rule(v, DefKind::File, "group_types"@) == Some(FieldRule::Collection(RelKind::Type, ValueKind::Def(spec_slot(v, DefKind::GroupType)))),
        schema_rule(v, DefKind::File, "policy_types"@) == Some(FieldRule::Collection(RelKind::Type, ValueKind::Def(spec_slot(v, DefKind::PolicyType)))),
        schema_rule(v, DefKind::File, "interface_types"@) == Some(FieldRule::Collection(RelKind::Type, ValueKind::Def(spec_slot(v, DefKind::InterfaceType)))),
        schema_rule(v, DefKind::File, name) is Some <==> (name == "tosca_definitions_version"@ || name == "dsl_definitions"@ || name == "profile"@ || name == "metadata"@ || name == "description"@ || name == "imports"@ || name == "service_template"@ || name == "node_types"@ || name == "data_types"@ || name == "artifact_types"@ || name == "capability_types"@ || name == "relationship_types"@ || name == "group_types"@ || name == "policy_types"@ || name == "interface_types"@),
{
    reveal_strlit("tosca_definitions_version");
    assert("tosca_definitions_version"@.len() == 25);
    reveal_strlit("dsl_definitions");
    assert("dsl_definitions"@.len() == 15);
    reveal_strlit("profile");
    assert("profile"@.len() == 7);
    reveal_strlit("metadata");
    assert("metadata"@.len() == 8);
    reveal_strlit("description");
    assert("description"@.len() == 11);
    reveal_strlit("imports");
    assert("imports"@.len() == 7);
    reveal_strlit("service_template");
    assert("service_template"@.len() == 16);
    reveal_strlit("node_types");
    assert("node_types"@.len() == 10);
    reveal_strlit("data_types");
    assert("data_types"@.len() == 10);
    reveal_strlit("artifact_types");
    assert("artifact_types"@.len() == 14);
    reveal_strlit("capability_types");
    assert("capability_types"@.len() == 16);
    reveal_strlit("relationship_types");
    assert("relationship_types"@.len() == 18);
    reveal_strlit("group_types");
    assert("group_types"@.len() == 11);
    reveal_strlit("policy_types");
    assert("policy_types"@.len() == 12);
    reveal_strlit("interface_types");
    assert("interface_types"@.len() == 15);
    assert("dsl_definitions"@[0] != "interface_types"@[0]);
    assert("profile"@[0] != "imports"@[0]);
    assert("description"@[0] != "group_types"@[0]);
    assert("service_template"@[0] != "capability_types"@[0]);
    assert("node_types"@[0] != "data_types"@[0]);
}

/// The fields of an import definition, `url`, `profile`, `repository`, `namespace`, each
/// with the rule it is read by; an import has no other field.
pub proof fn law_import_fields(v: ToscaVersion, name: Seq<char>)
    ensures
        schema_rule(v, DefKind::Import, "url"@) == Some(FieldRule::Field(RelKind::ImportUrl, ValueKind::String)),
        schema_rule(v, DefKind::Import, "profile"@) == Some(FieldRule::Field(RelKind::ImportProfile, ValueKind::String)),
        schema_rule(v, DefKind::Import, "repository"@) == Some(FieldRule::Field(RelKind::ImportRepository, ValueKind::String)),
        schema_rule(v, DefKind::Import, "namespace"@) == Some(FieldRule::Field(RelKind::ImportNamespace, ValueKind::String)),
        schema_rule(v, DefKind::Import, name) is Some <==> (name == "url"@ || name == "profile"@ || name == "repository"@ || name == "namespace"@),
{
    reveal_strlit("url");
    assert("url"@.len() == 3);
    reveal_strlit("profile");
    assert("profile"@.len() == 7);
    reveal_strlit("repository");
    assert("repository"@.len() == 10);
    reveal_strlit("namespace");
    assert("namespace"@.len() == 9);
}

/// The fields of a service template definition, `description`, `metadata`, `inputs`, `outputs`, `node_templates`, `relationship_templates`, `groups`, `workflows`, `policies`, `substitution_mappings`, each
/// with the rule it is read by; a service template has no other field.
pub proof fn law_service_template_fields(v: ToscaVersion, name: Seq<char>)
    ensures
        schema_rule(v, DefKind::ServiceTemplate, "description"@) == Some(FieldRule::Field(RelKind::Description, ValueKind::String)),
        schema_rule(v, DefKind::ServiceTemplate, "metadata"@) == Some(FieldRule::Collection(RelKind::Metadata, ValueKind::Any)),
        schema_rule(v, DefKind::ServiceTemplate, "inputs"@) == Some(FieldRule::Collection(RelKind::Definition, ValueKind::Def(spec_slot(v, DefKind::Parameter)))),
        schema_rule(v, DefKind::ServiceTemplate, "outputs"@) == Some(FieldRule::Collection(RelKind::Definition, ValueKind::Def(spec_slot(v, DefKind::Parameter)))),
        schema_rule(v, DefKind::ServiceTemplate, "node_templates"@) == Some(FieldRule::Collection(RelKind::Definition, ValueKind::Def(spec_slot(v, DefKind::NodeTemplate)))),
        schema_rule(v, DefKind::ServiceTemplate, "relationship_templates"@) == Some(FieldRule::Collection(RelKind::Definition, ValueKind::Def(spec_slot(v, DefKind::RelationshipTemplate)))),
        schema_rule(v, DefKind::ServiceTemplate, "groups"@) == Some(FieldRule::Collection(RelKind::Definition, ValueKind::Def(spec_slot(v, DefKind::Group)))),
        schema_rule(v, DefKind::ServiceTemplate, "workflows"@) == Some(FieldRule::Collection(RelKind::Definition, ValueKind::Def(spec_slot(v, DefKind::Workflow)))),
        schema_rule(v, DefKind::ServiceTemplate, "policies"@) == Some(FieldRule::Ignore),
        schema_rule(v, DefKind::ServiceTemplate, "substitution_mappings"@) == Some(FieldRule::Field(RelKind::SubstitutionMapping, ValueKind::Def(spec_slot(v, DefKind::SubstitutionMapping)))),
        schema_rule(v, DefKind::ServiceTemplate, name) is Some <==> (name == "description"@ || name == "metadata"@ || name == "inputs"@ || name == "outputs"@ || name == "node_templates"@ || name == "relationship_templates"@ || name == "groups"@ || name == "workflows"@ || name == "policies"@ || name == "substitution_mappings"@),
{
    reveal_strlit("description");
    assert("description"@.len() == 11);
    reveal_strlit("metadata");
    assert("metadata"@.len() == 8);
    reveal_strlit("inputs");
    assert("inputs"@.len() == 6);
    reveal_strlit("outputs");
    assert("outputs"@.len() == 7);
    reveal_strlit("node_templates");
    assert("node_templates"@.len() == 14);
    reveal_strlit("relationship_templates");
    assert("relationship_templates"@.len() == 22);
    reveal_strlit("groups");
    assert("groups"@.len() == 6);
    reveal_strlit("workflows");
    assert("workflows"@.len() == 9);
    reveal_strlit("policies");
    assert("policies"@.len() == 8);
    reveal_strlit("substitution_mappings");
    assert("substitution_mappings"@.len() == 21);
    assert("metadata"@[0] != "policies"@[0]);
    assert("inputs"@[0] != "groups"@[0]);
}

/// The fields of a substitution mapping definition, `node_type`, `substitution_filter`, `properties`, `attributes`, `capabilities`, `requirements`, `interfaces`, each
/// with the rule it is read by; a substitution mapping has no other field.
pub proof fn law_substitution_mapping_fields(v: ToscaVersion, name: Seq<char>)
    ensures
        schema_rule(v, DefKind::SubstitutionMapping, "node_type"@) == Some(FieldRule::TypeRef(Entity::Node(NodeEntity), RelKind::SubstitutesType)),
        schema_rule(v, DefKind::SubstitutionMapping, "substitution_filter"@) == Some(FieldRule::Ignore),
        schema_rule(v, DefKind::SubstitutionMapping, "properties"@) == Some(FieldRule::Collection(RelKind::Definition, ValueKind::Any)),
        schema_rule(v, DefKind::SubstitutionMapping, "attributes"@) == Some(FieldRule::Collection(RelKind::Definition, ValueKind::Any)),
        schema_rule(v, DefKind::SubstitutionMapping, "capabilities"@) == Some(FieldRule::Collection(RelKind::Definition, ValueKind::Any)),
        schema_rule(v, DefKind::SubstitutionMapping, "requirements"@) == Some(FieldRule::KeyedList(RelKind::OrderedDefinition, ValueKind::Any)),
        schema_rule(v, DefKind::SubstitutionMapping, "interfaces"@) == Some(FieldRule::Collection(RelKind::Definition, ValueKind::Any)),
        schema_rule(v, DefKind::SubstitutionMapping, name) is Some <==> (name == "node_type"@ || name == "substitution_filter"@ || name == "properties"@ || name == "attributes"@ || name == "capabilities"@ || name == "requirements"@ || name == "interfaces"@),
{
    reveal_strlit("node_type");
    assert("node_type"@.len() == 9);
    reveal_strlit("substitution_filter");
    assert("substitution_filter"@.len() == 19);
    reveal_strlit("properties");
    assert("properties"@.len() == 10);
    reveal_strlit("attributes");
    assert("attributes"@.len() == 10);
    reveal_strlit("capabilities");
    assert("capabilities"@.len() == 12);
    reveal_strlit("requirements");
    assert("requirements"@.len() == 12);
    reveal_strlit("interfaces");
    assert("interfaces"@.len() == 10);
    assert("properties"@[0] != "attributes"@[0]);
    assert("properties"@[0] != "interfaces"@[0]);
    assert("attributes"@[0] != "interfaces"@[0]);
    assert("capabilities"@[0] != "requirements"@[0]);
}

/// The fields of a node type definition, `derived_from`, `version`, `metadata`, `description`, `properties`, `attributes`, `capabilities`, `requirements`, `interfaces`, `artifacts`, each
/// with the rule it is read by; a node type has no other field.
pub proof fn law_node_type_fields(v: ToscaVersion, name: Seq<char>)
    ensures
        schema_rule(v, DefKind::NodeType, "derived_from"@) == Some(FieldRule::TypeRef(Entity::Node(NodeEntity), RelKind::DerivedFrom)),
        schema_rule(v, DefKind::NodeType, "version"@) == Some(FieldRule::Field(RelKind::Version, ValueKind::String)),
        schema_rule(v, DefKind::NodeType, "metadata"@) == Some(FieldRule::Collection(RelKind::Metadata, ValueKind::Any)),
        schema_rule(v, DefKind::NodeType, "description"@) == Some(FieldRule::Field(RelKind::Description, ValueKind::String)),
        schema_rule(v, DefKind::NodeType, "properties"@) == Some(FieldRule::Collection(RelKind::Definition, ValueKind::Def(spec_slot(v, DefKind::Property)))),
        schema_rule(v, DefKind::NodeType, "attributes"@) == Some(FieldRule::Collection(RelKind::Definition, ValueKind::Def(spec_slot(v, DefKind::Attribute)))),
        schema_rule(v, DefKind::NodeType, "capabilities"@) == Some(FieldRule::Collection(RelKind::Definition, ValueKind::Def(spec_slot(v, DefKind::Capability)))),
        schema_rule(v, DefKind::NodeType, "requirements"@) == Some(FieldRule::KeyedList(RelKind::OrderedDefinition, ValueKind::Def(spec_slot(v, DefKind::Requirement)))),
        schema_rule(v, DefKind::NodeType, "interfaces"@) == Some(FieldRule::Collection(RelKind::Definition, ValueKind::Def(spec_slot(v, DefKind::Interface)))),
        schema_rule(v, DefKind::NodeType, "artifacts"@) == Some(FieldRule::Collection(RelKind::Definition, ValueKind::Def(spec_slot(v, DefKind::Artifact)))),
        schema_rule(v, DefKind::NodeType, name) is Some <==> (name == "derived_from"@ || name == "version"@ || name == "metadata"@ || name == "description"@ || name == "properties"@ || name == "attributes"@ || name == "capabilities"@ || name == "requirements"@ || name == "interfaces"@ || name == "artifacts"@),
{
    reveal_strlit("derived_from");
    assert("derived_from"@.len() == 12);
    reveal_strlit("version");
    assert("version"@.len() == 7);
    reveal_strlit("metadata");
    assert("metadata"@.len() == 8);
    reveal_strlit("description");
    assert("description"@.len() == 11);
    reveal_strlit("properties");
    assert("properties"@.len() == 10);
    reveal_strlit("attributes");
    assert("attributes"@.len() == 10);
    reveal_strlit("capabilities");
    assert("capabilities"@.len() == 12);
    reveal_strlit("requirements");
    assert("requirements"@.len() == 12);
    reveal_strlit("interfaces");
    assert("interfaces"@.len() == 10);
    reveal_strlit("artifacts");
    assert("artifacts"@.len() == 9);
    assert("derived_from"@[0] != "capabilities"@[0]);
    assert("derived_from"@[0] != "requirements"@[0]);
    assert("properties"@[0] != "attributes"@[0]);
    assert("properties"@[0] != "interfaces"@[0]);
    assert("attributes"@[0] != "interfaces"@[0]);
    assert("capabilities"@[0] != "requirements"@[0]);
}

/// The fields of a node template definition, `type`, `description`, `metadata`, `directives`, `properties`, `attributes`, `capabilities`, `requirements`, `interfaces`, `artifacts`, `count`, `node_filter`, `copy`, each
/// with the rule it is read by; a node template has no other field.
pub proof fn law_node_template_fields(v: ToscaVersion, name: Seq<char>)
    ensures
        schema_rule(v, DefKind::NodeTemplate, "type"@) == Some(FieldRule::TypeRef(Entity::Node(NodeEntity), RelKind::HasType)),
        schema_rule(v, DefKind::NodeTemplate, "description"@) == Some(FieldRule::Field(RelKind::Description, ValueKind::String)),
        schema_rule(v, DefKind::NodeTemplate, "metadata"@) == Some(FieldRule::Collection(RelKind::Metadata, ValueKind::Any)),
        schema_rule(v, DefKind::NodeTemplate, "directives"@) == Some(FieldRule::List(RelKind::Directive, ValueKind::String)),
        schema_rule(v, DefKind::NodeTemplate, "properties"@) == Some(FieldRule::Collection(RelKind::Assignment, ValueKind::Any)),
        schema_rule(v, DefKind::NodeTemplate, "attributes"@) == Some(FieldRule::Collection(RelKind::Assignment, ValueKind::Any)),
        schema_rule(v, DefKind::NodeTemplate, "capabilities"@) == Some(FieldRule::Collection(RelKind::Assignment, ValueKind::Def(spec_slot(v, DefKind::CapabilityAssignment)))),
        schema_rule(v, DefKind::NodeTemplate, "requirements"@) == Some(FieldRule::KeyedList(RelKind::OrderedAssignment, ValueKind::Def(spec_slot(v, DefKind::RequirementAssignment)))),
        schema_rule(v, DefKind::NodeTemplate, "interfaces"@) == Some(FieldRule::Collection(RelKind::Assignment, ValueKind::Def(spec_slot(v, DefKind::InterfaceAssignment)))),
        schema_rule(v, DefKind::NodeTemplate, "artifacts"@) == Some(FieldRule::Collection(RelKind::Definition, ValueKind::Def(spec_slot(v, DefKind::Artifact)))),
        schema_rule(v, DefKind::NodeTemplate, "count"@) == Some(FieldRule::Ignore),
        schema_rule(v, DefKind::NodeTemplate, "node_filter"@) == Some(FieldRule::Ignore),
        schema_rule(v, DefKind::NodeTemplate, "copy"@) == Some(FieldRule::Ignore),
        schema_rule(v, DefKind::NodeTemplate, name) is Some <==> (name == "type"@ || name == "description"@ || name == "metadata"@ || name == "directives"@ || name == "properties"@ || name == "attributes"@ || name == "capabilities"@ || name == "requirements"@ || name == "interfaces"@ || name == "artifacts"@ || name == "count"@ || name == "node_filter"@ || name == "copy"@),
{
    reveal_strlit("type");
    assert("type"@.len() == 4);
    reveal_strlit("description");
    assert("description"@.len() == 11);
    reveal_strlit("metadata");
    assert("metadata"@.len() == 8);
    reveal_strlit("directives");
    assert("directives"@.len() == 10);
    reveal_strlit("properties");
    assert("properties"@.len() == 10);
    reveal_strlit("attributes");
    assert("attributes"@.len() == 10);
    reveal_strlit("capabilities");
    assert("capabilities"@.len() == 12);
    reveal_strlit("requirements");
    assert("requirements"@.len() == 12);
    reveal_strlit("interfaces");
    assert("interfaces"@.len() == 10);
    reveal_strlit("artifacts");
    assert("artifacts"@.len() == 9);
    reveal_strlit("count");
    assert("count"@.len() == 5);
    reveal_strlit("node_filter");
    assert("node_filter"@.len() == 11);
    reveal_strlit("copy");
    assert("copy"@.len() == 4);
    assert("type"@[0] != "copy"@[0]);
    assert("description"@[0] != "node_filter"@[0]);
    assert("directives"@[0] != "properties"@[0]);
    assert("directives"@[0] != "attributes"@[0]);
    assert("directives"@[0] != "interfaces"@[0]);
    assert("properties"@[0] != "attributes"@[0]);
    assert("properties"@[0] != "interfaces"@[0]);
    assert("attributes"@[0] != "interfaces"@[0]);
    assert("capabilities"@[0] != "requirements"@[0]);
}

/// The fields of a data type definition, `derived_from`, `version`, `metadata`, `description`, `validation`, `properties`, `key_schema`, `entry_schema`, each
/// with the rule it is read by; a data type has no other field.
pub proof fn law_data_type_fields(v: ToscaVersion, name: Seq<char>)
    ensures
        schema_rule(v, DefKind::DataType, "derived_from"@) == Some(FieldRule::TypeRef(Entity::Data(DataEntity), RelKind::DerivedFrom)),
        schema_rule(v, DefKind::DataType, "version"@) == Some(FieldRule::Field(RelKind::Version, ValueKind::String)),
        schema_rule(v, DefKind::DataType, "metadata"@) == Some(FieldRule::Collection(RelKind::Metadata, ValueKind::String)),
        schema_rule(v, DefKind::DataType, "description"@) == Some(FieldRule::Field(RelKind::Description, ValueKind::String)),
        schema_rule(v, DefKind::DataType, "validation"@) == Some(FieldRule::Field(RelKind::Validation, ValueKind::Any)),
        schema_rule(v, DefKind::DataType, "properties"@) == Some(FieldRule::Collection(RelKind::Definition, ValueKind::Def(spec_slot(v, DefKind::Property)))),
        schema_rule(v, DefKind::DataType, "key_schema"@) == Some(FieldRule::Field(RelKind::KeySchema, ValueKind::Def(spec_slot(v, DefKind::Schema)))),
        schema_rule(v, DefKind::DataType, "entry_schema"@) == Some(FieldRule::Field(RelKind::EntrySchema, ValueKind::Def(spec_slot(v, DefKind::Schema)))),
        schema_rule(v, DefKind::DataType, name) is Some <==> (name == "derived_from"@ || name == "version"@ || name == "metadata"@ || name == "description"@ || name == "validation"@ || name == "properties"@ || name == "key_schema"@ || name == "entry_schema"@),
{
    reveal_strlit("derived_from");
    assert("derived_from"@.len() == 12);
    reveal_strlit("version");
    assert("version"@.len() == 7);
    reveal_strlit("metadata");
    assert("metadata"@.len() == 8);
    reveal_strlit("description");
    assert("description"@.len() == 11);
    reveal_strlit("validation");
    assert("validation"@.len() == 10);
    reveal_strlit("properties");
    assert("properties"@.len() == 10);
    reveal_strlit("key_schema");
    assert("key_schema"@.len() == 10);
    reveal_strlit("entry_schema");
    assert("entry_schema"@.len() == 12);
    assert("derived_from"@[0] != "entry_schema"@[0]);
    assert("validation"@[0] != "properties"@[0]);
    assert("validation"@[0] != "key_schema"@[0]);
    assert("properties"@[0] != "key_schema"@[0]);
}

/// The fields of a schema definition, `type`, `description`, `validation`, `key_schema`, `entry_schema`, each
/// with the rule it is read by; a schema has no other field.
pub proof fn law_schema_fields(v: ToscaVersion, name: Seq<char>)
    ensures
        schema_rule(v, DefKind::Schema, "type"@) == Some(FieldRule::TypeRef(Entity::Data(DataEntity), RelKind::HasType)),
        schema_rule(v, DefKind::Schema, "description"@) == Some(FieldRule::Field(RelKind::Description, ValueKind::String)),
        schema_rule(v, DefKind::Schema, "validation"@) == Some(FieldRule::Field(RelKind::Validation, ValueKind::Any)),
        schema_rule(v, DefKind::Schema, "key_schema"@) == Some(FieldRule::Field(RelKind::KeySchema, ValueKind::Def(spec_slot(v, DefKind::Schema)))),
        schema_rule(v, DefKind::Schema, "entry_schema"@) == Some(FieldRule::Field(RelKind::EntrySchema, ValueKind::Def(spec_slot(v, DefKind::Schema)))),
        schema_rule(v, DefKind::Schema, name) is Some <==> (name == "type"@ || name == "description"@ || name == "validation"@ || name == "key_schema"@ || name == "entry_schema"@),
{
    reveal_strlit("type");
    assert("type"@.len() == 4);
    reveal_strlit("description");
    assert("description"@.len() == 11);
    reveal_strlit("validation");
    assert("validation"@.len() == 10);
    reveal_strlit("key_schema");
    assert("key_schema"@.len() == 10);
    reveal_strlit("entry_schema");
    assert("entry_schema"@.len() == 12);
    assert("validation"@[0] != "key_schema"@[0]);
}

/// The fields of an attribute definition, `type`, `description`, `default`, `status`, `validation`, `key_schema`, `entry_schema`, `metadata`, each
/// with the rule it is read by; an attribute has no other field.
pub proof fn law_attribute_fields(v: ToscaVersion, name: Seq<char>)
    ensures
        schema_rule(v, DefKind::Attribute, "type"@) == Some(FieldRule::TypeRef(Entity::Data(DataEntity), RelKind::HasType)),
        schema_rule(v, DefKind::Attribute, "description"@) == Some(FieldRule::Field(RelKind::Description, ValueKind::String)),
        schema_rule(v, DefKind::Attribute, "default"@) == Some(FieldRule::Field(RelKind::Default, ValueKind::Any)),
        schema_rule(v, DefKind::Attribute, "status"@) == Some(FieldRule::Field(RelKind::Default, ValueKind::Status)),
        schema_rule(v, DefKind::Attribute, "validation"@) == Some(FieldRule::Field(RelKind::Validation, ValueKind::Any)),
        schema_rule(v, DefKind::Attribute, "key_schema"@) == Some(FieldRule::Field(RelKind::KeySchema, ValueKind::Def(spec_slot(v, DefKind::Schema)))),
        schema_rule(v, DefKind::Attribute, "entry_schema"@) == Some(FieldRule::Field(RelKind::EntrySchema, ValueKind::Def(spec_slot(v, DefKind::Schema)))),
        schema_rule(v, DefKind::Attribute, "metadata"@) == Some(FieldRule::Collection(RelKind::Metadata, ValueKind::String)),
        schema_rule(v, DefKind::Attribute, name) is Some <==> (name == "type"@ || name == "description"@ || name == "default"@ || name == "status"@ || name == "validation"@ || name == "key_schema"@ || name == "entry_schema"@ || name == "metadata"@),
{
    reveal_strlit("type");
    assert("type"@.len() == 4);
    reveal_strlit("description");
    assert("description"@.len() == 11);
    reveal_strlit("default");
    assert("default"@.len() == 7);
    reveal_strlit("status");
    assert("status"@.len() == 6);
    reveal_strlit("validation");
    assert("validation"@.len() == 10);
    reveal_strlit("key_schema");
    assert("key_schema"@.len() == 10);
    reveal_strlit("entry_schema");
    assert("entry_schema"@.len() == 12);
    reveal_strlit("metadata");
    assert("metadata"@.len() == 8);
    assert("validation"@[0] != "key_schema"@[0]);
}

/// The fields of a property definition, `type`, `description`, `required`, `default`, `status`, `validation`, `value`, `key_schema`, `entry_schema`, `external-schema`, `metadata`, each
/// with the rule it is read by; a property has no other field.
pub proof fn law_property_fields(v: ToscaVersion, name: Seq<char>)
    ensures
        schema_rule(v, DefKind::Property, "type"@) == Some(FieldRule::TypeRef(Entity::Data(DataEntity), RelKind::HasType)),
        schema_rule(v, DefKind::Property, "description"@) == Some(FieldRule::Field(RelKind::Description, ValueKind::String)),
        schema_rule(v, DefKind::Property, "required"@) == Some(FieldRule::Field(RelKind::Required, ValueKind::Bool)),
        schema_rule(v, DefKind::Property, "default"@) == Some(FieldRule::Field(RelKind::Default, ValueKind::Any)),
        schema_rule(v, DefKind::Property, "status"@) == Some(FieldRule::Field(RelKind::Default, ValueKind::Status)),
        schema_rule(v, DefKind::Property, "validation"@) == Some(FieldRule::Field(RelKind::Validation, ValueKind::Any)),
        schema_rule(v, DefKind::Property, "value"@) == Some(FieldRule::Field(RelKind::Value, ValueKind::Any)),
        schema_rule(v, DefKind::Property, "key_schema"@) == Some(FieldRule::Field(RelKind::KeySchema, ValueKind::Def(spec_slot(v, DefKind::Schema)))),
        schema_rule(v, DefKind::Property, "entry_schema"@) == Some(FieldRule::Field(RelKind::EntrySchema, ValueKind::Def(spec_slot(v, DefKind::Schema)))),
        schema_rule(v, DefKind::Property, "external-schema"@) == Some(FieldRule::Field(RelKind::ExternalSchema, ValueKind::String)),
        schema_rule(v, DefKind::Property, "metadata"@) == Some(FieldRule::Collection(RelKind::Metadata, ValueKind::String)),
        schema_rule(v, DefKind::Property, name) is Some <==> (name == "type"@ || name == "description"@ || name == "required"@ || name == "default"@ || name == "status"@ || name == "validation"@ || name == "value"@ || name == "key_schema"@ || name == "entry_schema"@ || name == "external-schema"@ || name == "metadata"@),
{
    reveal_strlit("type");
    assert("type"@.len() == 4);
    reveal_strlit("description");
    assert("description"@.len() == 11);
    reveal_strlit("required");
    assert("required"@.len() == 8);
    reveal_strlit("default");
    assert("default"@.len() == 7);
    reveal_strlit("status");
    assert("status"@.len() == 6);
    reveal_strlit("validation");
    assert("validation"@.len() == 10);
    reveal_strlit("value");
    assert("value"@.len() == 5);
    reveal_strlit("key_schema");
    assert("key_schema"@.len() == 10);
    reveal_strlit("entry_schema");
    assert("entry_schema"@.len() == 12);
    reveal_strlit("external-schema");
    assert("external-schema"@.len() == 15);
    reveal_strlit("metadata");
    assert("metadata"@.len() == 8);
    assert("required"@[0] != "metadata"@[0]);
    assert("validation"@[0] != "key_schema"@[0]);
}

/// The fields of a parameter definition, `type`, `description`, `required`, `default`, `status`, `validation`, `value`, `mapping`, `key_schema`, `entry_schema`, `external-schema`, `metadata`, each
/// with the rule it is read by; a parameter has no other field.
pub proof fn law_parameter_fields(v: ToscaVersion, name: Seq<char>)
    ensures
        schema_rule(v, DefKind::Parameter, "type"@) == Some(FieldRule::TypeRef(Entity::Data(DataEntity), RelKind::HasType)),
        schema_rule(v, DefKind::Parameter, "description"@) == Some(FieldRule::Field(RelKind::Description, ValueKind::String)),
        schema_rule(v, DefKind::Parameter, "required"@) == Some(FieldRule::Field(RelKind::Required, ValueKind::Bool)),
        schema_rule(v, DefKind::Parameter, "default"@) == Some(FieldRule::Field(RelKind::Default, ValueKind::Any)),
        schema_rule(v, DefKind::Parameter, "status"@) == Some(FieldRule::Field(RelKind::Default, ValueKind::Status)),
        schema_rule(v, DefKind::Parameter, "validation"@) == Some(FieldRule::Field(RelKind::Validation, ValueKind::Any)),
        schema_rule(v, DefKind::Parameter, "value"@) == Some(FieldRule::Field(RelKind::Value, ValueKind::Any)),
        schema_rule(v, DefKind::Parameter, "mapping"@) == Some(FieldRule::Field(RelKind::Mapping, ValueKind::Any)),
        schema_rule(v, DefKind::Parameter, "key_schema"@) == Some(FieldRule::Field(RelKind::KeySchema, ValueKind::Def(spec_slot(v, DefKind::Schema)))),
        schema_rule(v, DefKind::Parameter, "entry_schema"@) == Some(FieldRule::Field(RelKind::EntrySchema, ValueKind::Def(spec_slot(v, DefKind::Schema)))),
        schema_rule(v, DefKind::Parameter, "external-schema"@) == Some(FieldRule::Field(RelKind::ExternalSchema, ValueKind::String)),
        schema_rule(v, DefKind::Parameter, "metadata"@) == Some(FieldRule::Collection(RelKind::Metadata, ValueKind::String)),
        schema_rule(v, DefKind::Parameter, name) is Some <==> (name == "type"@ || name == "description"@ || name == "required"@ || name == "default"@ || name == "status"@ || name == "validation"@ || name == "value"@ || name == "mapping"@ || name == "key_schema"@ || name == "entry_schema"@ || name == "external-schema"@ || name == "metadata"@),
{
    reveal_strlit("type");
    assert("type"@.len() == 4);
    reveal_strlit("description");
    assert("description"@.len() == 11);
    reveal_strlit("required");
    assert("required"@.len() == 8);
    reveal_strlit("default");
    assert("default"@.len() == 7);
    reveal_strlit("status");
    assert("status"@.len() == 6);
    reveal_strlit("validation");
    assert("validation"@.len() == 10);
    reveal_strlit("value");
    assert("value"@.len() == 5);
    reveal_strlit("mapping");
    assert("mapping"@.len() == 7);
    reveal_strlit("key_schema");
    assert("key_schema"@.len() == 10);
    reveal_strlit("entry_schema");
    assert("entry_schema"@.len() == 12);
    reveal_strlit("external-schema");
    assert("external-schema"@.len() == 15);
    reveal_strlit("metadata");
    assert("metadata"@.len() == 8);
    assert("required"@[0] != "metadata"@[0]);
    assert("default"@[0] != "mapping"@[0]);
    assert("validation"@[0] != "key_schema"@[0]);
}

/// The fields of an artifact type definition, `derived_from`, `version`, `metadata`, `description`, `mime_type`, `file_ext`, `properties`, each
/// with the rule it is read by; an artifact type has no other field.
pub proof fn law_artifact_type_fields(v: ToscaVersion, name: Seq<char>)
    ensures
        schema_rule(v, DefKind::ArtifactType, "derived_from"@) == Some(FieldRule::TypeRef(Entity::Artifact(ArtifactEntity), RelKind::DerivedFrom)),
        schema_rule(v, DefKind::ArtifactType, "version"@) == Some(FieldRule::Field(RelKind::Version, ValueKind::String)),
        schema_rule(v, DefKind::ArtifactType, "metadata"@) == Some(FieldRule::Collection(RelKind::Metadata, ValueKind::Any)),
        schema_rule(v, DefKind::ArtifactType, "description"@) == Some(FieldRule::Field(RelKind::Description, ValueKind::String)),
        schema_rule(v, DefKind::ArtifactType, "mime_type"@) == Some(FieldRule::Field(RelKind::MimeType, ValueKind::String)),
        schema_rule(v, DefKind::ArtifactType, "file_ext"@) == Some(FieldRule::List(RelKind::FileExt, ValueKind::String)),
        schema_rule(v, DefKind::ArtifactType, "properties"@) == Some(FieldRule::Collection(RelKind::Definition, ValueKind::Def(spec_slot(v, DefKind::Property)))),
        schema_rule(v, DefKind::ArtifactType, name) is Some <==> (name == "derived_from"@ || name == "version"@ || name == "metadata"@ || name == "description"@ || name == "mime_type"@ || name == "file_ext"@ || name == "properties"@),
{
    reveal_strlit("derived_from");
    assert("derived_from"@.len() == 12);
    reveal_strlit("version");
    assert("version"@.len() == 7);
    reveal_strlit("metadata");
    assert("metadata"@.len() == 8);
    reveal_strlit("description");
    assert("description"@.len() == 11);
    reveal_strlit("mime_type");
    assert("mime_type"@.len() == 9);
    reveal_strlit("file_ext");
    assert("file_ext"@.len() == 8);
    reveal_strlit("properties");
    assert("properties"@.len() == 10);
    assert("metadata"@[0] != "file_ext"@[0]);
}

/// The fields of an artifact definition, `type`, `file`, `repository`, `description`, `metadata`, `artifact_version`, `checksum`, `checksum_algorithm`, `properties`, each
/// with the rule it is read by; an artifact has no other field.
pub proof fn law_artifact_fields(v: ToscaVersion, name: Seq<char>)
    ensures
        schema_rule(v, DefKind::Artifact, "type"@) == Some(FieldRule::TypeRef(Entity::Artifact(ArtifactEntity), RelKind::HasType)),
        schema_rule(v, DefKind::Artifact, "file"@) == Some(FieldRule::Field(RelKind::HasFile, ValueKind::String)),
        schema_rule(v, DefKind::Artifact, "repository"@) == Some(FieldRule::Field(RelKind::Repository, ValueKind::String)),
        schema_rule(v, DefKind::Artifact, "description"@) == Some(FieldRule::Field(RelKind::Description, ValueKind::String)),
        schema_rule(v, DefKind::Artifact, "metadata"@) == Some(FieldRule::Collection(RelKind::Metadata, ValueKind::Any)),
        schema_rule(v, DefKind::Artifact, "artifact_version"@) == Some(FieldRule::Field(RelKind::Version, ValueKind::String)),
        schema_rule(v, DefKind::Artifact, "checksum"@) == Some(FieldRule::Field(RelKind::Checksum, ValueKind::String)),
        schema_rule(v, DefKind::Artifact, "checksum_algorithm"@) == Some(FieldRule::Field(RelKind::ChecksumAlgorithm, ValueKind::String)),
        schema_rule(v, DefKind::Artifact, "properties"@) == Some(FieldRule::Collection(RelKind::Assignment, ValueKind::Any)),
        schema_rule(v, DefKind::Artifact, name) is Some <==> (name == "type"@ || name == "file"@ || name == "repository"@ || name == "description"@ || name == "metadata"@ || name == "artifact_version"@ || name == "checksum"@ || name == "checksum_algorithm"@ || name == "properties"@),
{
    reveal_strlit("type");
    assert("type"@.len() == 4);
    reveal_strlit("file");
    assert("file"@.len() == 4);
    reveal_strlit("repository");
    assert("repository"@.len() == 10);
    reveal_strlit("description");
    assert("description"@.len() == 11);
    reveal_strlit("metadata");
    assert("metadata"@.len() == 8);
    reveal_strlit("artifact_version");
    assert("artifact_version"@.len() == 16);
    reveal_strlit("checksum");
    assert("checksum"@.len() == 8);
    reveal_strlit("checksum_algorithm");
    assert("checksum_algorithm"@.len() == 18);
    reveal_strlit("properties");
    assert("properties"@.len() == 10);
    assert("type"@[0] != "file"@[0]);
    assert("repository"@[0] != "properties"@[0]);
    assert("metadata"@[0] != "checksum"@[0]);
}

/// The fields of an implementation definition, `primary`, `dependencies`, each
/// with the rule it is read by; an implementation has no other field.
pub proof fn law_implementation_fields(v: ToscaVersion, name: Seq<char>)
    ensures
        schema_rule(v, DefKind::Implementation, "primary"@) == Some(FieldRule::ArtifactRef(RelKind::PrimaryArtifact)),
        schema_rule(v, DefKind::Implementation, "dependencies"@) == Some(FieldRule::ArtifactRefList(RelKind::DependencyArtifact)),
        schema_rule(v, DefKind::Implementation, name) is Some <==> (name == "primary"@ || name == "dependencies"@),
{
    reveal_strlit("primary");
    assert("primary"@.len() == 7);
    reveal_strlit("dependencies");
    assert("dependencies"@.len() == 12);
}

/// The fields of a capability type definition, `derived_from`, `version`, `metadata`, `description`, `properties`, `attributes`, `valid_source_node_types`, `valid_relationship_types`, each
/// with the rule it is read by; a capability type has no other field.
pub proof fn law_capability_type_fields(v: ToscaVersion, name: Seq<char>)
    ensures
        schema_rule(v, DefKind::CapabilityType, "derived_from"@) == Some(FieldRule::TypeRef(Entity::Capability(CapabilityEntity), RelKind::DerivedFrom)),
        schema_rule(v, DefKind::CapabilityType, "version"@) == Some(FieldRule::Field(RelKind::Version, ValueKind::String)),
        schema_rule(v, DefKind::CapabilityType, "metadata"@) == Some(FieldRule::Collection(RelKind::Metadata, ValueKind::Any)),
        schema_rule(v, DefKind::CapabilityType, "description"@) == Some(FieldRule::Field(RelKind::Description, ValueKind::String)),
        schema_rule(v, DefKind::CapabilityType, "properties"@) == Some(FieldRule::Collection(RelKind::Definition, ValueKind::Def(spec_slot(v, DefKind::Property)))),
        schema_rule(v, DefKind::CapabilityType, "attributes"@) == Some(FieldRule::Collection(RelKind::Definition, ValueKind::Def(spec_slot(v, DefKind::Attribute)))),
        schema_rule(v, DefKind::CapabilityType, "valid_source_node_types"@) == Some(FieldRule::TypeRefList(Entity::Node(NodeEntity), RelKind::ValidSourceNodeType)),
        schema_rule(v, DefKind::CapabilityType, "valid_relationship_types"@) == Some(FieldRule::TypeRefList(Entity::Relationship(RelationshipEntity), RelKind::ValidRelationshipType)),
        schema_rule(v, DefKind::CapabilityType, name) is Some <==> (name == "derived_from"@ || name == "version"@ || name == "metadata"@ || name == "description"@ || name == "properties"@ || name == "attributes"@ || name == "valid_source_node_types"@ || name == "valid_relationship_types"@),
{
    reveal_strlit("derived_from");
    assert("derived_from"@.len() == 12);
    reveal_strlit("version");
    assert("version"@.len() == 7);
    reveal_strlit("metadata");
    assert("metadata"@.len() == 8);
    reveal_strlit("description");
    assert("description"@.len() == 11);
    reveal_strlit("properties");
    assert("properties"@.len() == 10);
    reveal_strlit("attributes");
    assert("attributes"@.len() == 10);
    reveal_strlit("valid_source_node_types");
    assert("valid_source_node_types"@.len() == 23);
    reveal_strlit("valid_relationship_types");
    assert("valid_relationship_types"@.len() == 24);
    assert("properties"@[0] != "attributes"@[0]);
}

/// The fields of a capability definition, `type`, `description`, `metadata`, `properties`, `attributes`, `valid_source_node_types`, `valid_relationship_types`, each
/// with the rule it is read by; a capability has no other field.
pub proof fn law_capability_fields(v: ToscaVersion, name: Seq<char>)
    ensures
        schema_rule(v, DefKind::Capability, "type"@) == Some(FieldRule::TypeRef(Entity::Capability(CapabilityEntity), RelKind::HasType)),
        schema_rule(v, DefKind::Capability, "description"@) == Some(FieldRule::Field(RelKind::Description, ValueKind::String)),
        schema_rule(v, DefKind::Capability, "metadata"@) == Some(FieldRule::Collection(RelKind::Metadata, ValueKind::Any)),
        schema_rule(v, DefKind::Capability, "properties"@) == Some(FieldRule::Collection(RelKind::Definition, ValueKind::Def(spec_slot(v, DefKind::Property)))),
        schema_rule(v, DefKind::Capability, "attributes"@) == Some(FieldRule::Collection(RelKind::Definition, ValueKind::Def(spec_slot(v, DefKind::Attribute)))),
        schema_rule(v, DefKind::Capability, "valid_source_node_types"@) == Some(FieldRule::TypeRefList(Entity::Node(NodeEntity), RelKind::ValidSourceNodeType)),
        schema_rule(v, DefKind::Capability, "valid_relationship_types"@) == Some(FieldRule::TypeRefList(Entity::Relationship(RelationshipEntity), RelKind::ValidRelationshipType)),
        schema_rule(v, DefKind::Capability, name) is Some <==> (name == "type"@ || name == "description"@ || name == "metadata"@ || name == "properties"@ || name == "attributes"@ || name == "valid_source_node_types"@ || name == "valid_relationship_types"@),
{
    reveal_strlit("type");
    assert("type"@.len() == 4);
    reveal_strlit("description");
    assert("description"@.len() == 11);
    reveal_strlit("metadata");
    assert("metadata"@.len() == 8);
    reveal_strlit("properties");
    assert("properties"@.len() == 10);
    reveal_strlit("attributes");
    assert("attributes"@.len() == 10);
    reveal_strlit("valid_source_node_types");
    assert("valid_source_node_types"@.len() == 23);
    reveal_strlit("valid_relationship_types");
    assert("valid_relationship_types"@.len() == 24);
    assert("properties"@[0] != "attributes"@[0]);
}

/// The fields of a capability assignment definition, `directives`, `properties`, `attributes`, each
/// with the rule it is read by; a capability assignment has no other field.
pub proof fn law_capability_assignment_fields(v: ToscaVersion, name: Seq<char>)
    ensures
        schema_rule(v, DefKind::CapabilityAssignment, "directives"@) == Some(FieldRule::List(RelKind::Directive, ValueKind::String)),
        schema_rule(v, DefKind::CapabilityAssignment, "properties"@) == Some(FieldRule::Collection(RelKind::Assignment, ValueKind::Any)),
        schema_rule(v, DefKind::CapabilityAssignment, "attributes"@) == Some(FieldRule::Collection(RelKind::Assignment, ValueKind::Any)),
        schema_rule(v, DefKind::CapabilityAssignment, name) is Some <==> (name == "directives"@ || name == "properties"@ || name == "attributes"@),
{
    reveal_strlit("directives");
    assert("directives"@.len() == 10);
    reveal_strlit("properties");
    assert("properties"@.len() == 10);
    reveal_strlit("attributes");
    assert("attributes"@.len() == 10);
    assert("directives"@[0] != "properties"@[0]);
    assert("directives"@[0] != "attributes"@[0]);
    assert("properties"@[0] != "attributes"@[0]);
}

/// The fields of a group type definition, `derived_from`, `version`, `metadata`, `description`, `properties`, `attributes`, `members`, each
/// with the rule it is read by; a group type has no other field.
pub proof fn law_group_type_fields(v: ToscaVersion, name: Seq<char>)
    ensures
        schema_rule(v, DefKind::GroupType, "derived_from"@) == Some(FieldRule::TypeRef(Entity::Group(GroupEntity), RelKind::DerivedFrom)),
        schema_rule(v, DefKind::GroupType, "version"@) == Some(FieldRule::Field(RelKind::Version, ValueKind::String)),
        schema_rule(v, DefKind::GroupType, "metadata"@) == Some(FieldRule::Collection(RelKind::Metadata, ValueKind::Any)),
        schema_rule(v, DefKind::GroupType, "description"@) == Some(FieldRule::Field(RelKind::Description, ValueKind::String)),
        schema_rule(v, DefKind::GroupType, "properties"@) == Some(FieldRule::Collection(RelKind::Definition, ValueKind::Def(spec_slot(v, DefKind::Property)))),
        schema_rule(v, DefKind::GroupType, "attributes"@) == Some(FieldRule::Collection(RelKind::Definition, ValueKind::Def(spec_slot(v, DefKind::Attribute)))),
        schema_rule(v, DefKind::GroupType, "members"@) == Some(FieldRule::TypeRefList(Entity::Node(NodeEntity), RelKind::MemberNodeType)),
        schema_rule(v, DefKind::GroupType, name) is Some <==> (name == "derived_from"@ || name == "version"@ || name == "metadata"@ || name == "description"@ || name == "properties"@ || name == "attributes"@ || name == "members"@),
{
    reveal_strlit("derived_from");
    assert("derived_from"@.len() == 12);
    reveal_strlit("version");
    assert("version"@.len() == 7);
    reveal_strlit("metadata");
    assert("metadata"@.len() == 8);
    reveal_strlit("description");
    assert("description"@.len() == 11);
    reveal_strlit("properties");
    assert("properties"@.len() == 10);
    reveal_strlit("attributes");
    assert("attributes"@.len() == 10);
    reveal_strlit("members");
    assert("members"@.len() == 7);
    assert("version"@[0] != "members"@[0]);
    assert("properties"@[0] != "attributes"@[0]);
}

/// The fields of a group definition, `type`, `description`, `metadata`, `properties`, `attributes`, `members`, each
/// with the rule it is read by; a group has no other field.
pub proof fn law_group_fields(v: ToscaVersion, name: Seq<char>)
    ensures
        schema_rule(v, DefKind::Group, "type"@) == Some(FieldRule::TypeRef(Entity::Group(GroupEntity), RelKind::HasType)),
        schema_rule(v, DefKind::Group, "description"@) == Some(FieldRule::Field(RelKind::Description, ValueKind::String)),
        schema_rule(v, DefKind::Group, "metadata"@) == Some(FieldRule::Collection(RelKind::Metadata, ValueKind::Any)),
        schema_rule(v, DefKind::Group, "properties"@) == Some(FieldRule::Collection(RelKind::Assignment, ValueKind::Any)),
        schema_rule(v, DefKind::Group, "attributes"@) == Some(FieldRule::Collection(RelKind::Assignment, ValueKind::Any)),
        schema_rule(v, DefKind::Group, "members"@) == Some(FieldRule::DefRefList(Entity::ServiceTemplate(ServiceTemplateEntity), Entity::Node(NodeEntity), RelKind::MemberNodeTemplate)),
        schema_rule(v, DefKind::Group, name) is Some <==> (name == "type"@ || name == "description"@ || name == "metadata"@ || name == "properties"@ || name == "attributes"@ || name == "members"@),
{
    reveal_strlit("type");
    assert("type"@.len() == 4);
    reveal_strlit("description");
    assert("description"@.len() == 11);
    reveal_strlit("metadata");
    assert("metadata"@.len() == 8);
    reveal_strlit("properties");
    assert("properties"@.len() == 10);
    reveal_strlit("attributes");
    assert("attributes"@.len() == 10);
    reveal_strlit("members");
    assert("members"@.len() == 7);
    assert("properties"@[0] != "attributes"@[0]);
}

/// The fields of a policy type definition, `derived_from`, `version`, `metadata`, `description`, `properties`, `targets`, `triggers`, each
/// with the rule it is read by; a policy type has no other field.
pub proof fn law_policy_type_fields(v: ToscaVersion, name: Seq<char>)
    ensures
        schema_rule(v, DefKind::PolicyType, "derived_from"@) == Some(FieldRule::TypeRef(Entity::Policy(PolicyEntity), RelKind::DerivedFrom)),
        schema_rule(v, DefKind::PolicyType, "version"@) == Some(FieldRule::Field(RelKind::Version, ValueKind::String)),
        schema_rule(v, DefKind::PolicyType, "metadata"@) == Some(FieldRule::Collection(RelKind::Metadata, ValueKind::Any)),
        schema_rule(v, DefKind::PolicyType, "description"@) == Some(FieldRule::Field(RelKind::Description, ValueKind::String)),
        schema_rule(v, DefKind::PolicyType, "properties"@) == Some(FieldRule::Collection(RelKind::Definition, ValueKind::Def(spec_slot(v, DefKind::Property)))),
        schema_rule(v, DefKind::PolicyType, "targets"@) == Some(FieldRule::TypeRefList(Entity::Node(NodeEntity), RelKind::ValidTargetNodeType)),
        schema_rule(v, DefKind::PolicyType, "triggers"@) == Some(FieldRule::Collection(RelKind::Definition, ValueKind::Def(spec_slot(v, DefKind::PolicyTrigger)))),
        schema_rule(v, DefKind::PolicyType, name) is Some <==> (name == "derived_from"@ || name == "version"@ || name == "metadata"@ || name == "description"@ || name == "properties"@ || name == "targets"@ || name == "triggers"@),
{
    reveal_strlit("derived_from");
    assert("derived_from"@.len() == 12);
    reveal_strlit("version");
    assert("version"@.len() == 7);
    reveal_strlit("metadata");
    assert("metadata"@.len() == 8);
    reveal_strlit("description");
    assert("description"@.len() == 11);
    reveal_strlit("properties");
    assert("properties"@.len() == 10);
    reveal_strlit("targets");
    assert("targets"@.len() == 7);
    reveal_strlit("triggers");
    assert("triggers"@.len() == 8);
    assert("version"@[0] != "targets"@[0]);
    assert("metadata"@[0] != "triggers"@[0]);
}

/// The fields of a policy definition, `type`, `description`, `metadata`, `properties`, `targets`, `triggers`, each
/// with the rule it is read by; a policy has no other field.
pub proof fn law_policy_fields(v: ToscaVersion, name: Seq<char>)
    ensures
        schema_rule(v, DefKind::Policy, "type"@) == Some(FieldRule::TypeRef(Entity::Policy(PolicyEntity), RelKind::HasType)),
        schema_rule(v, DefKind::Policy, "description"@) == Some(FieldRule::Field(RelKind::Description, ValueKind::String)),
        schema_rule(v, DefKind::Policy, "metadata"@) == Some(FieldRule::Collection(RelKind::Metadata, ValueKind::Any)),
        schema_rule(v, DefKind::Policy, "properties"@) == Some(FieldRule::Collection(RelKind::Assignment, ValueKind::Any)),
        schema_rule(v, DefKind::Policy, "targets"@) == Some(FieldRule::TypeRefList(Entity::Node(NodeEntity), RelKind::ValidTargetNodeType)),
        schema_rule(v, DefKind::Policy, "triggers"@) == Some(FieldRule::Collection(RelKind::Definition, ValueKind::Def(spec_slot(v, DefKind::PolicyTrigger)))),
        schema_rule(v, DefKind::Policy, name) is Some <==> (name == "type"@ || name == "description"@ || name == "metadata"@ || name == "properties"@ || name == "targets"@ || name == "triggers"@),
{
    reveal_strlit("type");
    assert("type"@.len() == 4);
    reveal_strlit("description");
    assert("description"@.len() == 11);
    reveal_strlit("metadata");
    assert("metadata"@.len() == 8);
    reveal_strlit("properties");
    assert("properties"@.len() == 10);
    reveal_strlit("targets");
    assert("targets"@.len() == 7);
    reveal_strlit("triggers");
    assert("triggers"@.len() == 8);
    assert("metadata"@[0] != "triggers"@[0]);
}

/// The fields of a policy trigger definition, `description`, `event`, `condition`, `action`, each
/// with the rule it is read by; a policy trigger has no other field.
pub proof fn law_policy_trigger_fields(v: ToscaVersion, name: Seq<char>)
    ensures
        schema_rule(v, DefKind::PolicyTrigger, "description"@) == Some(FieldRule::Field(RelKind::Description, ValueKind::String)),
        schema_rule(v, DefKind::PolicyTrigger, "event"@) == Some(FieldRule::Field(RelKind::PolicyTriggerEvent, ValueKind::String)),
        schema_rule(v, DefKind::PolicyTrigger, "condition"@) == Some(FieldRule::Ignore),
        schema_rule(v, DefKind::PolicyTrigger, "action"@) == Some(FieldRule::List(RelKind::WorkflowActivity, ValueKind::Def(spec_slot(v, DefKind::WorkflowActivity)))),
        schema_rule(v, DefKind::PolicyTrigger, name) is Some <==> (name == "description"@ || name == "event"@ || name == "condition"@ || name == "action"@),
{
    reveal_strlit("description");
    assert("description"@.len() == 11);
    reveal_strlit("event");
    assert("event"@.len() == 5);
    reveal_strlit("condition");
    assert("condition"@.len() == 9);
    reveal_strlit("action");
    assert("action"@.len() == 6);
}

/// The fields of an interface type definition, `derived_from`, `version`, `metadata`, `description`, `operations`, `notifications`, `inputs`, each
/// with the rule it is read by; an interface type has no other field.
pub proof fn law_interface_type_fields(v: ToscaVersion, name: Seq<char>)
    ensures
        schema_rule(v, DefKind::InterfaceType, "derived_from"@) == Some(FieldRule::TypeRef(Entity::Interface(InterfaceEntity), RelKind::DerivedFrom)),
        schema_rule(v, DefKind::InterfaceType, "version"@) == Some(FieldRule::Field(RelKind::Version, ValueKind::String)),
        schema_rule(v, DefKind::InterfaceType, "metadata"@) == Some(FieldRule::Collection(RelKind::Metadata, ValueKind::Any)),
        schema_rule(v, DefKind::InterfaceType, "description"@) == Some(FieldRule::Field(RelKind::Description, ValueKind::String)),
        schema_rule(v, DefKind::InterfaceType, "operations"@) == Some(FieldRule::Collection(RelKind::Definition, ValueKind::Def(spec_slot(v, DefKind::Operation)))),
        schema_rule(v, DefKind::InterfaceType, "notifications"@) == Some(FieldRule::Collection(RelKind::Definition, ValueKind::Def(spec_slot(v, DefKind::Notification)))),
        schema_rule(v, DefKind::InterfaceType, "inputs"@) == Some(FieldRule::Collection(RelKind::Definition, ValueKind::Def(spec_slot(v, DefKind::Parameter)))),
        schema_rule(v, DefKind::InterfaceType, name) is Some <==> (name == "derived_from"@ || name == "version"@ || name == "metadata"@ || name == "description"@ || name == "operations"@ || name == "notifications"@ || name == "inputs"@),
{
    reveal_strlit("derived_from");
    assert("derived_from"@.len() == 12);
    reveal_strlit("version");
    assert("version"@.len() == 7);
    reveal_strlit("metadata");
    assert("metadata"@.len() == 8);
    reveal_strlit("description");
    assert("description"@.len() == 11);
    reveal_strlit("operations");
    assert("operations"@.len() == 10);
    reveal_strlit("notifications");
    assert("notifications"@.len() == 13);
    reveal_strlit("inputs");
    assert("inputs"@.len() == 6);
}

/// The fields of an interface definition, `type`, `description`, `metadata`, `operations`, `notifications`, `inputs`, each
/// with the rule it is read by; an interface has no other field.
pub proof fn law_interface_fields(v: ToscaVersion, name: Seq<char>)
    ensures
        schema_rule(v, DefKind::Interface, "type"@) == Some(FieldRule::TypeRef(Entity::Interface(InterfaceEntity), RelKind::HasType)),
        schema_rule(v, DefKind::Interface, "description"@) == Some(FieldRule::Field(RelKind::Description, ValueKind::String)),
        schema_rule(v, DefKind::Interface, "metadata"@) == Some(FieldRule::Collection(RelKind::Metadata, ValueKind::Any)),
        schema_rule(v, DefKind::Interface, "operations"@) == Some(FieldRule::Collection(RelKind::Definition, ValueKind::Def(spec_slot(v, DefKind::Operation)))),
        schema_rule(v, DefKind::Interface, "notifications"@) == Some(FieldRule::Collection(RelKind::Definition, ValueKind::Def(spec_slot(v, DefKind::Notification)))),
        schema_rule(v, DefKind::Interface, "inputs"@) == Some(FieldRule::Collection(RelKind::Definition, ValueKind::Def(spec_slot(v, DefKind::Parameter)))),
        schema_rule(v, DefKind::Interface, name) is Some <==> (name == "type"@ || name == "description"@ || name == "metadata"@ || name == "operations"@ || name == "notifications"@ || name == "inputs"@),
{
    reveal_strlit("type");
    assert("type"@.len() == 4);
    reveal_strlit("description");
    assert("description"@.len() == 11);
    reveal_strlit("metadata");
    assert("metadata"@.len() == 8);
    reveal_strlit("operations");
    assert("operations"@.len() == 10);
    reveal_strlit("notifications");
    assert("notifications"@.len() == 13);
    reveal_strlit("inputs");
    assert("inputs"@.len() == 6);
}

/// The fields of an interface assignment definition, `operations`, `notifications`, `inputs`, each
/// with the rule it is read by; an interface assignment has no other field.
pub proof fn law_interface_assignment_fields(v: ToscaVersion, name: Seq<char>)
    ensures
        schema_rule(v, DefKind::InterfaceAssignment, "operations"@) == Some(FieldRule::Collection(RelKind::Assignment, ValueKind::Def(spec_slot(v, DefKind::OperationAssignment)))),
        schema_rule(v, DefKind::InterfaceAssignment, "notifications"@) == Some(FieldRule::Collection(RelKind::Assignment, ValueKind::Def(spec_slot(v, DefKind::NotificationAssignment)))),
        schema_rule(v, DefKind::InterfaceAssignment, "inputs"@) == Some(FieldRule::Collection(RelKind::Assignment, ValueKind::Any)),
        schema_rule(v, DefKind::InterfaceAssignment, name) is Some <==> (name == "operations"@ || name == "notifications"@ || name == "inputs"@),
{
    reveal_strlit("operations");
    assert("operations"@.len() == 10);
    reveal_strlit("notifications");
    assert("notifications"@.len() == 13);
    reveal_strlit("inputs");
    assert("inputs"@.len() == 6);
}

/// The fields of an operation definition, `description`, `implementation`, `inputs`, `outputs`, each
/// with the rule it is read by; an operation has no other field.
pub proof fn law_operation_fields(v: ToscaVersion, name: Seq<char>)
    ensures
        schema_rule(v, DefKind::Operation, "description"@) == Some(FieldRule::Field(RelKind::Description, ValueKind::String)),
        schema_rule(v, DefKind::Operation, "implementation"@) == Some(FieldRule::Field(RelKind::Definition, ValueKind::Def(spec_slot(v, DefKind::Implementation)))),
        schema_rule(v, DefKind::Operation, "inputs"@) == Some(FieldRule::Collection(RelKind::Definition, ValueKind::Def(spec_slot(v, DefKind::Parameter)))),
        schema_rule(v, DefKind::Operation, "outputs"@) == Some(FieldRule::Collection(RelKind::Definition, ValueKind::Def(spec_slot(v, DefKind::Parameter)))),
        schema_rule(v, DefKind::Operation, name) is Some <==> (name == "description"@ || name == "implementation"@ || name == "inputs"@ || name == "outputs"@),
{
    reveal_strlit("description");
    assert("description"@.len() == 11);
    reveal_strlit("implementation");
    assert("implementation"@.len() == 14);
    reveal_strlit("inputs");
    assert("inputs"@.len() == 6);
    reveal_strlit("outputs");
    assert("outputs"@.len() == 7);
}

/// The fields of an operation assignment definition, `implementation`, `inputs`, `outputs`, each
/// with the rule it is read by; an operation assignment has no other field.
pub proof fn law_operation_assignment_fields(v: ToscaVersion, name: Seq<char>)
    ensures
        schema_rule(v, DefKind::OperationAssignment, "implementation"@) == Some(FieldRule::Field(RelKind::Definition, ValueKind::Def(spec_slot(v, DefKind::Implementation)))),
        schema_rule(v, DefKind::OperationAssignment, "inputs"@) == Some(FieldRule::Collection(RelKind::Assignment, ValueKind::Any)),
        schema_rule(v, DefKind::OperationAssignment, "outputs"@) == Some(FieldRule::Collection(RelKind::Assignment, ValueKind::Any)),
        schema_rule(v, DefKind::OperationAssignment, name) is Some <==> (name == "implementation"@ || name == "inputs"@ || name == "outputs"@),
{
    reveal_strlit("implementation");
    assert("implementation"@.len() == 14);
    reveal_strlit("inputs");
    assert("inputs"@.len() == 6);
    reveal_strlit("outputs");
    assert("outputs"@.len() == 7);
}

/// The fields of a notification definition, `description`, `implementation`, `inputs`, `outputs`, each
/// with the rule it is read by; a notification has no other field.
pub proof fn law_notification_fields(v: ToscaVersion, name: Seq<char>)
    ensures
        schema_rule(v, DefKind::Notification, "description"@) == Some(FieldRule::Field(RelKind::Description, ValueKind::String)),
        schema_rule(v, DefKind::Notification, "implementation"@) == Some(FieldRule::Field(RelKind::Definition, ValueKind::Def(spec_slot(v, DefKind::Implementation)))),
        schema_rule(v, DefKind::Notification, "inputs"@) == Some(FieldRule::Collection(RelKind::Definition, ValueKind::Def(spec_slot(v, DefKind::Parameter)))),
        schema_rule(v, DefKind::Notification, "outputs"@) == Some(FieldRule::Collection(RelKind::Definition, ValueKind::Def(spec_slot(v, DefKind::Parameter)))),
        schema_rule(v, DefKind::Notification, name) is Some <==> (name == "description"@ || name == "implementation"@ || name == "inputs"@ || name == "outputs"@),
{
    reveal_strlit("description");
    assert("description"@.len() == 11);
    reveal_strlit("implementation");
    assert("implementation"@.len() == 14);
    reveal_strlit("inputs");
    assert("inputs"@.len() == 6);
    reveal_strlit("outputs");
    assert("outputs"@.len() == 7);
}

/// The fields of a notification assignment definition, `implementation`, `inputs`, `outputs`, each
/// with the rule it is read by; a notification assignment has no other field.
pub proof fn law_notification_assignment_fields(v: ToscaVersion, name: Seq<char>)
    ensures
        schema_rule(v, DefKind::NotificationAssignment, "implementation"@) == Some(FieldRule::Field(RelKind::Definition, ValueKind::Def(spec_slot(v, DefKind::Implementation)))),
        schema_rule(v, DefKind::NotificationAssignment, "inputs"@) == Some(FieldRule::Collection(RelKind::Assignment, ValueKind::Any)),
        schema_rule(v, DefKind::NotificationAssignment, "outputs"@) == Some(FieldRule::Collection(RelKind::Assignment, ValueKind::Any)),
        schema_rule(v, DefKind::NotificationAssignment, name) is Some <==> (name == "implementation"@ || name == "inputs"@ || name == "outputs"@),
{
    reveal_strlit("implementation");
    assert("implementation"@.len() == 14);
    reveal_strlit("inputs");
    assert("inputs"@.len() == 6);
    reveal_strlit("outputs");
    assert("outputs"@.len() == 7);
}

/// The fields of a relationship type definition, `derived_from`, `version`, `metadata`, `description`, `properties`, `attributes`, `interfaces`, `valid_capability_types`, `valid_target_node_types`, `valid_source_node_types`, each
/// with the rule it is read by; a relationship type has no other field.
pub proof fn law_relationship_type_fields(v: ToscaVersion, name: Seq<char>)
    ensures
        schema_rule(v, DefKind::RelationshipType, "derived_from"@) == Some(FieldRule::TypeRef(Entity::Relationship(RelationshipEntity), RelKind::DerivedFrom)),
        schema_rule(v, DefKind::RelationshipType, "version"@) == Some(FieldRule::Field(RelKind::Version, ValueKind::String)),
        schema_rule(v, DefKind::RelationshipType, "metadata"@) == Some(FieldRule::Collection(RelKind::Metadata, ValueKind::Any)),
        schema_rule(v, DefKind::RelationshipType, "description"@) == Some(FieldRule::Field(RelKind::Description, ValueKind::String)),
        schema_rule(v, DefKind::RelationshipType, "properties"@) == Some(FieldRule::Collection(RelKind::Definition, ValueKind::Def(spec_slot(v, DefKind::Property)))),
        schema_rule(v, DefKind::RelationshipType, "attributes"@) == Some(FieldRule::Collection(RelKind::Definition, ValueKind::Def(spec_slot(v, DefKind::Attribute)))),
        schema_rule(v, DefKind::RelationshipType, "interfaces"@) == Some(FieldRule::Collection(RelKind::Definition, ValueKind::Def(spec_slot(v, DefKind::Interface)))),
        schema_rule(v, DefKind::RelationshipType, "valid_capability_types"@) == Some(FieldRule::TypeRefList(Entity::Capability(CapabilityEntity), RelKind::ValidCapabilityType)),
        schema_rule(v, DefKind::RelationshipType, "valid_target_node_types"@) == Some(FieldRule::TypeRefList(Entity::Node(NodeEntity), RelKind::ValidTargetNodeType)),
        schema_rule(v, DefKind::RelationshipType, "valid_source_node_types"@) == Some(FieldRule::TypeRefList(Entity::Node(NodeEntity), RelKind::ValidSourceNodeType)),
        schema_rule(v, DefKind::RelationshipType, name) is Some <==> (name == "derived_from"@ || name == "version"@ || name == "metadata"@ || name == "description"@ || name == "properties"@ || name == "attributes"@ || name == "interfaces"@ || name == "valid_capability_types"@ || name == "valid_target_node_types"@ || name == "valid_source_node_types"@),
{
    reveal_strlit("derived_from");
    assert("derived_from"@.len() == 12);
    reveal_strlit("version");
    assert("version"@.len() == 7);
    reveal_strlit("metadata");
    assert("metadata"@.len() == 8);
    reveal_strlit("description");
    assert("description"@.len() == 11);
    reveal_strlit("properties");
    assert("properties"@.len() == 10);
    reveal_strlit("attributes");
    assert("attributes"@.len() == 10);
    reveal_strlit("interfaces");
    assert("interfaces"@.len() == 10);
    reveal_strlit("valid_capability_types");
    assert("valid_capability_types"@.len() == 22);
    reveal_strlit("valid_target_node_types");
    assert("valid_target_node_types"@.len() == 23);
    reveal_strlit("valid_source_node_types");
    assert("valid_source_node_types"@.len() == 23);
    assert("properties"@[0] != "attributes"@[0]);
    assert("properties"@[0] != "interfaces"@[0]);
    assert("attributes"@[0] != "interfaces"@[0]);
    assert("valid_target_node_types"@[6] != "valid_source_node_types"@[6]);
}

/// The fields of a relationship template definition, `type`, `description`, `metadata`, `properties`, `attributes`, `interfaces`, `copy`, each
/// with the rule it is read by; a relationship template has no other field.
pub proof fn law_relationship_template_fields(v: ToscaVersion, name: Seq<char>)
    ensures
        schema_rule(v, DefKind::RelationshipTemplate, "type"@) == Some(FieldRule::TypeRef(Entity::Relationship(RelationshipEntity), RelKind::HasType)),
        schema_rule(v, DefKind::RelationshipTemplate, "description"@) == Some(FieldRule::Field(RelKind::Description, ValueKind::String)),
        schema_rule(v, DefKind::RelationshipTemplate, "metadata"@) == Some(FieldRule::Collection(RelKind::Metadata, ValueKind::Any)),
        schema_rule(v, DefKind::RelationshipTemplate, "properties"@) == Some(FieldRule::Collection(RelKind::Assignment, ValueKind::Any)),
        schema_rule(v, DefKind::RelationshipTemplate, "attributes"@) == Some(FieldRule::Collection(RelKind::Assignment, ValueKind::Any)),
        schema_rule(v, DefKind::RelationshipTemplate, "interfaces"@) == Some(FieldRule::Collection(RelKind::Assignment, ValueKind::Def(spec_slot(v, DefKind::InterfaceAssignment)))),
        schema_rule(v, DefKind::RelationshipTemplate, "copy"@) == Some(FieldRule::Ignore),
        schema_rule(v, DefKind::RelationshipTemplate, name) is Some <==> (name == "type"@ || name == "description"@ || name == "metadata"@ || name == "properties"@ || name == "attributes"@ || name == "interfaces"@ || name == "copy"@),
{
    reveal_strlit("type");
    assert("type"@.len() == 4);
    reveal_strlit("description");
    assert("description"@.len() == 11);
    reveal_strlit("metadata");
    assert("metadata"@.len() == 8);
    reveal_strlit("properties");
    assert("properties"@.len() == 10);
    reveal_strlit("attributes");
    assert("attributes"@.len() == 10);
    reveal_strlit("interfaces");
    assert("interfaces"@.len() == 10);
    reveal_strlit("copy");
    assert("copy"@.len() == 4);
    assert("type"@[0] != "copy"@[0]);
    assert("properties"@[0] != "attributes"@[0]);
    assert("properties"@[0] != "interfaces"@[0]);
    assert("attributes"@[0] != "interfaces"@[0]);
}

/// The fields of a relationship definition, `type`, `description`, `metadata`, `properties`, `attributes`, `interfaces`, each
/// with the rule it is read by; a relationship has no other field.
pub proof fn law_relationship_fields(v: ToscaVersion, name: Seq<char>)
    ensures
        schema_rule(v, DefKind::Relationship, "type"@) == Some(FieldRule::TypeRef(Entity::Relationship(RelationshipEntity), RelKind::HasType)),
        schema_rule(v, DefKind::Relationship, "description"@) == Some(FieldRule::Field(RelKind::Description, ValueKind::String)),
        schema_rule(v, DefKind::Relationship, "metadata"@) == Some(FieldRule::Collection(RelKind::Metadata, ValueKind::Any)),
        schema_rule(v, DefKind::Relationship, "properties"@) == Some(FieldRule::Collection(RelKind::Assignment, ValueKind::Any)),
        schema_rule(v, DefKind::Relationship, "attributes"@) == Some(FieldRule::Collection(RelKind::Assignment, ValueKind::Any)),
        schema_rule(v, DefKind::Relationship, "interfaces"@) == Some(FieldRule::Collection(RelKind::Assignment, ValueKind::Def(spec_slot(v, DefKind::InterfaceAssignment)))),
        schema_rule(v, DefKind::Relationship, name) is Some <==> (name == "type"@ || name == "description"@ || name == "metadata"@ || name == "properties"@ || name == "attributes"@ || name == "interfaces"@),
{
    reveal_strlit("type");
    assert("type"@.len() == 4);
    reveal_strlit("description");
    assert("description"@.len() == 11);
    reveal_strlit("metadata");
    assert("metadata"@.len() == 8);
    reveal_strlit("properties");
    assert("properties"@.len() == 10);
    reveal_strlit("attributes");
    assert("attributes"@.len() == 10);
    reveal_strlit("interfaces");
    assert("interfaces"@.len() == 10);
    assert("properties"@[0] != "attributes"@[0]);
    assert("properties"@[0] != "interfaces"@[0]);
    assert("attributes"@[0] != "interfaces"@[0]);
}

/// The fields of a relationship assignment definition, `type`, `properties`, `attributes`, `interfaces`, each
/// with the rule it is read by; a relationship assignment has no other field.
pub proof fn law_relationship_assignment_fields(v: ToscaVersion, name: Seq<char>)
    ensures
        schema_rule(v, DefKind::RelationshipAssignment, "type"@) == Some(FieldRule::TypeRef(Entity::Relationship(RelationshipEntity), RelKind::HasType)),
        schema_rule(v, DefKind::RelationshipAssignment, "properties"@) == Some(FieldRule::Collection(RelKind::Assignment, ValueKind::Any)),
        schema_rule(v, DefKind::RelationshipAssignment, "attributes"@) == Some(FieldRule::Collection(RelKind::Assignment, ValueKind::Any)),
        schema_rule(v, DefKind::RelationshipAssignment, "interfaces"@) == Some(FieldRule::Collection(RelKind::Assignment, ValueKind::Def(spec_slot(v, DefKind::InterfaceAssignment)))),
        schema_rule(v, DefKind::RelationshipAssignment, name) is Some <==> (name == "type"@ || name == "properties"@ || name == "attributes"@ || name == "interfaces"@),
{
    reveal_strlit("type");
    assert("type"@.len() == 4);
    reveal_strlit("properties");
    assert("properties"@.len() == 10);
    reveal_strlit("attributes");
    assert("attributes"@.len() == 10);
    reveal_strlit("interfaces");
    assert("interfaces"@.len() == 10);
    assert("properties"@[0] != "attributes"@[0]);
    assert("properties"@[0] != "interfaces"@[0]);
    assert("attributes"@[0] != "interfaces"@[0]);
}

/// The fields of a requirement definition, `relationship`, `node`, `capability`, `occurrences`, each
/// with the rule it is read by; a requirement has no other field.
pub proof fn law_requirement_fields(v: ToscaVersion, name: Seq<char>)
    ensures
        schema_rule(v, DefKind::Requirement, "relationship"@) == Some(FieldRule::Field(RelKind::Definition, ValueKind::Def(spec_slot(v, DefKind::Relationship)))),
        schema_rule(v, DefKind::Requirement, "node"@) == Some(FieldRule::TypeRef(Entity::Node(NodeEntity), RelKind::ValidTargetNodeType)),
        schema_rule(v, DefKind::Requirement, "capability"@) == Some(FieldRule::TypeRef(Entity::Capability(CapabilityEntity), RelKind::ValidCapabilityType)),
        schema_rule(v, DefKind::Requirement, "occurrences"@) == Some(FieldRule::Ignore),
        schema_rule(v, DefKind::Requirement, name) is Some <==> (name == "relationship"@ || name == "node"@ || name == "capability"@ || name == "occurrences"@),
{
    reveal_strlit("relationship");
    assert("relationship"@.len() == 12);
    reveal_strlit("node");
    assert("node"@.len() == 4);
    reveal_strlit("capability");
    assert("capability"@.len() == 10);
    reveal_strlit("occurrences");
    assert("occurrences"@.len() == 11);
}

/// The fields of a requirement assignment definition, `node`, `capability`, `relationship`, `node_filter`, `occurrences`, each
/// with the rule it is read by; a requirement assignment has no other field.
pub proof fn law_requirement_assignment_fields(v: ToscaVersion, name: Seq<char>)
    ensures
        schema_rule(v, DefKind::RequirementAssignment, "node"@) == Some(FieldRule::DefRef(Entity::ServiceTemplate(ServiceTemplateEntity), Entity::Node(NodeEntity), RelKind::TargetNode)),
        schema_rule(v, DefKind::RequirementAssignment, "capability"@) == Some(FieldRule::Field(RelKind::TargetCapability, ValueKind::String)),
        schema_rule(v, DefKind::RequirementAssignment, "relationship"@) == Some(FieldRule::Field(RelKind::Assignment, ValueKind::Def(spec_slot(v, DefKind::RelationshipAssignment)))),
        schema_rule(v, DefKind::RequirementAssignment, "node_filter"@) == Some(FieldRule::Ignore),
        schema_rule(v, DefKind::RequirementAssignment, "occurrences"@) == Some(FieldRule::Ignore),
        schema_rule(v, DefKind::RequirementAssignment, name) is Some <==> (name == "node"@ || name == "capability"@ || name == "relationship"@ || name == "node_filter"@ || name == "occurrences"@),
{
    reveal_strlit("node");
    assert("node"@.len() == 4);
    reveal_strlit("capability");
    assert("capability"@.len() == 10);
    reveal_strlit("relationship");
    assert("relationship"@.len() == 12);
    reveal_strlit("node_filter");
    assert("node_filter"@.len() == 11);
    reveal_strlit("occurrences");
    assert("occurrences"@.len() == 11);
    assert("node_filter"@[0] != "occurrences"@[0]);
}

/// The fields of a workflow definition, `description`, `metadata`, `inputs`, `outputs`, `precondition`, `steps`, `implementation`, each
/// with the rule it is read by; a workflow has no other field.
pub proof fn law_workflow_fields(v: ToscaVersion, name: Seq<char>)
    ensures
        schema_rule(v, DefKind::Workflow, "description"@) == Some(FieldRule::Field(RelKind::Description, ValueKind::String)),
        schema_rule(v, DefKind::Workflow, "metadata"@) == Some(FieldRule::Collection(RelKind::Metadata, ValueKind::Any)),
        schema_rule(v, DefKind::Workflow, "inputs"@) == Some(FieldRule::Collection(RelKind::Definition, ValueKind::Def(spec_slot(v, DefKind::Parameter)))),
        schema_rule(v, DefKind::Workflow, "outputs"@) == Some(FieldRule::Collection(RelKind::Definition, ValueKind::Def(spec_slot(v, DefKind::Parameter)))),
        schema_rule(v, DefKind::Workflow, "precondition"@) == Some(FieldRule::Ignore),
        schema_rule(v, DefKind::Workflow, "steps"@) == Some(FieldRule::Collection(RelKind::Definition, ValueKind::Def(spec_slot(v, DefKind::WorkflowStep)))),
        schema_rule(v, DefKind::Workflow, "implementation"@) == Some(FieldRule::Field(RelKind::Definition, ValueKind::Def(spec_slot(v, DefKind::Implementation)))),
        schema_rule(v, DefKind::Workflow, name) is Some <==> (name == "description"@ || name == "metadata"@ || name == "inputs"@ || name == "outputs"@ || name == "precondition"@ || name == "steps"@ || name == "implementation"@),
{
    reveal_strlit("description");
    assert("description"@.len() == 11);
    reveal_strlit("metadata");
    assert("metadata"@.len() == 8);
    reveal_strlit("inputs");
    assert("inputs"@.len() == 6);
    reveal_strlit("outputs");
    assert("outputs"@.len() == 7);
    reveal_strlit("precondition");
    assert("precondition"@.len() == 12);
    reveal_strlit("steps");
    assert("steps"@.len() == 5);
    reveal_strlit("implementation");
    assert("implementation"@.len() == 14);
}

/// The fields of a workflow step definition, `target`, `target_relationship`, `filter`, `activities`, `on_success`, `on_failure`, each
/// with the rule it is read by; a workflow step has no other field.
pub proof fn law_workflow_step_fields(v: ToscaVersion, name: Seq<char>)
    ensures
        schema_rule(v, DefKind::WorkflowStep, "target"@) == Some(FieldRule::DefRef(Entity::ServiceTemplate(ServiceTemplateEntity), Entity::Node(NodeEntity), RelKind::TargetNode)),
        schema_rule(v, DefKind::WorkflowStep, "target_relationship"@) == Some(FieldRule::Field(RelKind::Definition, ValueKind::String)),
        schema_rule(v, DefKind::WorkflowStep, "filter"@) == Some(FieldRule::Ignore),
        schema_rule(v, DefKind::WorkflowStep, "activities"@) == Some(FieldRule::List(RelKind::WorkflowActivity, ValueKind::Def(spec_slot(v, DefKind::WorkflowActivity)))),
        schema_rule(v, DefKind::WorkflowStep, "on_success"@) == Some(FieldRule::Ignore),
        schema_rule(v, DefKind::WorkflowStep, "on_failure"@) == Some(FieldRule::Ignore),
        schema_rule(v, DefKind::WorkflowStep, name) is Some <==> (name == "target"@ || name == "target_relationship"@ || name == "filter"@ || name == "activities"@ || name == "on_success"@ || name == "on_failure"@),
{
    reveal_strlit("target");
    assert("target"@.len() == 6);
    reveal_strlit("target_relationship");
    assert("target_relationship"@.len() == 19);
    reveal_strlit("filter");
    assert("filter"@.len() == 6);
    reveal_strlit("activities");
    assert("activities"@.len() == 10);
    reveal_strlit("on_success");
    assert("on_success"@.len() == 10);
    reveal_strlit("on_failure");
    assert("on_failure"@.len() == 10);
    assert("target"@[0] != "filter"@[0]);
    assert("activities"@[0] != "on_success"@[0]);
    assert("activities"@[0] != "on_failure"@[0]);
    assert("on_success"@[3] != "on_failure"@[3]);
}

/// A workflow activity definition is read from no fields of a map.
pub proof fn law_workflow_activity_fields(v: ToscaVersion, name: Seq<char>)
    ensures
        schema_rule(v, DefKind::WorkflowActivity, name) is None,
{
}

/// The fields of a workflow delegate activity definition, `workflow`, `inputs`, each
/// with the rule it is read by; a workflow delegate activity has no other field.
pub proof fn law_workflow_delegate_activity_fields(v: ToscaVersion, name: Seq<char>)
    ensures
        schema_rule(v, DefKind::WorkflowDelegateActivity, "workflow"@) == Some(FieldRule::Field(RelKind::Description, ValueKind::String)),
        schema_rule(v, DefKind::WorkflowDelegateActivity, "inputs"@) == Some(FieldRule::Collection(RelKind::Definition, ValueKind::Any)),
        schema_rule(v, DefKind::WorkflowDelegateActivity, name) is Some <==> (name == "workflow"@ || name == "inputs"@),
{
    reveal_strlit("workflow");
    assert("workflow"@.len() == 8);
    reveal_strlit("inputs");
    assert("inputs"@.len() == 6);
}

/// The fields of a workflow inline activity definition, `workflow`, `inputs`, each
/// with the rule it is read by; a workflow inline activity has no other field.
pub proof fn law_workflow_inline_activity_fields(v: ToscaVersion, name: Seq<char>)
    ensures
        schema_rule(v, DefKind::WorkflowInlineActivity, "workflow"@) == Some(FieldRule::Field(RelKind::Description, ValueKind::String)),
        schema_rule(v, DefKind::WorkflowInlineActivity, "inputs"@) == Some(FieldRule::Collection(RelKind::Definition, ValueKind::Any)),
        schema_rule(v, DefKind::WorkflowInlineActivity, name) is Some <==> (name == "workflow"@ || name == "inputs"@),
{
    reveal_strlit("workflow");
    assert("workflow"@.len() == 8);
    reveal_strlit("inputs");
    assert("inputs"@.len() == 6);
}

/// A workflow set state activity definition is read from no fields of a map.
pub proof fn law_workflow_set_state_activity_fields(v: ToscaVersion, name: Seq<char>)
    ensures
        schema_rule(v, DefKind::WorkflowSetStateActivity, name) is None,
{
}

/// The fields of a workflow call operation activity definition, `operation`, `inputs`, each
/// with the rule it is read by; a workflow call operation activity has no other field.
pub proof fn law_workflow_call_operation_activity_fields(v: ToscaVersion, name: Seq<char>)
    ensures
        schema_rule(v, DefKind::WorkflowCallOperationActivity, "operation"@) == Some(FieldRule::Field(RelKind::Description, ValueKind::String)),
        schema_rule(v, DefKind::WorkflowCallOperationActivity, "inputs"@) == Some(FieldRule::Collection(RelKind::Definition, ValueKind::Any)),
        schema_rule(v, DefKind::WorkflowCallOperationActivity, name) is Some <==> (name == "operation"@ || name == "inputs"@),
{
    reveal_strlit("operation");
    assert("operation"@.len() == 9);
    reveal_strlit("inputs");
    assert("inputs"@.len() == 6);
}

/// The fields of a function signature definition, `arguments`, `optional_arguments`, `variadic`, `result`, `implementation`, each
/// with the rule it is read by; a function signature has no other field.
pub proof fn law_function_signature_fields(v: ToscaVersion, name: Seq<char>)
    ensures
        schema_rule(v, DefKind::FunctionSignature, "arguments"@) == Some(FieldRule::List(RelKind::FunctionArgument, ValueKind::Def(spec_slot(v, DefKind::Schema)))),
        schema_rule(v, DefKind::FunctionSignature, "optional_arguments"@) == Some(FieldRule::List(RelKind::FunctionOptionalArgument, ValueKind::Def(spec_slot(v, DefKind::Schema)))),
        schema_rule(v, DefKind::FunctionSignature, "variadic"@) == Some(FieldRule::Field(RelKind::Definition, ValueKind::Bool)),
        schema_rule(v, DefKind::FunctionSignature, "result"@) == Some(FieldRule::Field(RelKind::Definition, ValueKind::Def(spec_slot(v, DefKind::Schema)))),
        schema_rule(v, DefKind::FunctionSignature, "implementation"@) == Some(FieldRule::Field(RelKind::Definition, ValueKind::Def(spec_slot(v, DefKind::Implementation)))),
        schema_rule(v, DefKind::FunctionSignature, name) is Some <==> (name == "arguments"@ || name == "optional_arguments"@ || name == "variadic"@ || name == "result"@ || name == "implementation"@),
{
    reveal_strlit("arguments");
    assert("arguments"@.len() == 9);
    reveal_strlit("optional_arguments");
    assert("optional_arguments"@.len() == 18);
    reveal_strlit("variadic");
    assert("variadic"@.len() == 8);
    reveal_strlit("result");
    assert("result"@.len() == 6);
    reveal_strlit("implementation");
    assert("implementation"@.len() == 14);
}

/// The fields of a function definition, `signatures`, `description`, `metadata`, each
/// with the rule it is read by; a function has no other field.
pub proof fn law_function_fields(v: ToscaVersion, name: Seq<char>)
    ensures
        schema_rule(v, DefKind::Function, "signatures"@) == Some(FieldRule::List(RelKind::FunctionSignature, ValueKind::Def(spec_slot(v, DefKind::FunctionSignature)))),
        schema_rule(v, DefKind::Function, "description"@) == Some(FieldRule::Field(RelKind::Description, ValueKind::String)),
        schema_rule(v, DefKind::Function, "metadata"@) == Some(FieldRule::Collection(RelKind::Metadata, ValueKind::Any)),
        schema_rule(v, DefKind::Function, name) is Some <==> (name == "signatures"@ || name == "description"@ || name == "metadata"@),
{
    reveal_strlit("signatures");
    assert("signatures"@.len() == 10);
    reveal_strlit("description");
    assert("description"@.len() == 11);
    reveal_strlit("metadata");
    assert("metadata"@.len() == 8);
}

/// The fields of a repository definition, `url`, `metadata`, `description`, each
/// with the rule it is read by; a repository has no other field.
pub proof fn law_repository_fields(v: ToscaVersion, name: Seq<char>)
    ensures
        schema_rule(v, DefKind::Repository, "url"@) == Some(FieldRule::Field(RelKind::RepositoryUrl, ValueKind::String)),
        schema_rule(v, DefKind::Repository, "metadata"@) == Some(FieldRule::Collection(RelKind::Metadata, ValueKind::Any)),
        schema_rule(v, DefKind::Repository, "description"@) == Some(FieldRule::Field(RelKind::Description, ValueKind::String)),
        schema_rule(v, DefKind::Repository, name) is Some <==> (name == "url"@ || name == "metadata"@ || name == "description"@),
{
    reveal_strlit("url");
    assert("url"@.len() == 3);
    reveal_strlit("metadata");
    assert("metadata"@.len() == 8);
    reveal_strlit("description");
    assert("description"@.len() == 11);
}

/// The fields of a TOSCA 1.3 file definition, `tosca_definitions_version`, `namespace`, `metadata`, `description`, `dsl_definitions`, `imports`, `artifact_types`, `data_types`, `capability_types`, `interface_types`, `relationship_types`, `node_types`, `group_types`, `policy_types`, `topology_template`, each
/// with the rule it is read by; a TOSCA 1.3 file has no other field.
pub proof fn law_file13_fields(v: ToscaVersion, name: Seq<char>)
    ensures
        schema_rule(v, DefKind::File13, "tosca_definitions_version"@) == Some(FieldRule::Ignore),
        schema_rule(v, DefKind::File13, "namespace"@) == Some(FieldRule::Field(RelKind::Profile, ValueKind::String)),
        schema_rule(v, DefKind::File13, "metadata"@) == Some(FieldRule::Collection(RelKind::Metadata, ValueKind::Any)),
        schema_rule(v, DefKind::File13, "description"@) == Some(FieldRule::Field(RelKind::Description, ValueKind::String)),
        schema_rule(v, DefKind::File13, "dsl_definitions"@) == Some(FieldRule::Ignore),
        schema_rule(v, DefKind::File13, "imports"@) == Some(FieldRule::List(RelKind::Import, ValueKind::Def(spec_slot(v, DefKind::Import)))),
        schema_rule(v, DefKind::File13, "artifact_types"@) == Some(FieldRule::Collection(RelKind::Type, ValueKind::Def(spec_slot(v, DefKind::ArtifactType)))),
        schema_rule(v, DefKind::File13, "data_types"@) == Some(FieldRule::Collection(RelKind::Type, ValueKind::Def(spec_slot(v, DefKind::DataType)))),
        schema_rule(v, DefKind::File13, "capability_types"@) == Some(FieldRule::Collection(RelKind::Type, ValueKind::Def(spec_slot(v, DefKind::CapabilityType)))),
        schema_rule(v, DefKind::File13, "interface_types"@) == Some(FieldRule::Collection(RelKind::Type, ValueKind::Def(spec_slot(v, DefKind::InterfaceType)))),
        schema_rule(v, DefKind::File13, "relationship_types"@) == Some(FieldRule::Collection(RelKind::Type, ValueKind::Def(spec_slot(v, DefKind::RelationshipType)))),
        schema_rule(v, DefKind::File13, "node_types"@) == Some(FieldRule::Collection(RelKind::Type, ValueKind::Def(spec_slot(v, DefKind::NodeType)))),
        schema_rule(v, DefKind::File13, "group_types"@) == Some(FieldRule::Collection(RelKind::Type, ValueKind::Def(spec_slot(v, DefKind::GroupType)))),
        schema_rule(v, DefKind::File13, "policy_types"@) == Some(FieldRule::Collection(RelKind::Type, ValueKind::Def(spec_slot(v, DefKind::PolicyType)))),
        schema_rule(v, DefKind::File13, "topology_template"@) == Some(FieldRule::Field(RelKind::ServiceTemplate, ValueKind::Def(spec_slot(v, DefKind::ServiceTemplate)))),
        schema_rule(v, DefKind::File13, name) is Some <==> (name == "tosca_definitions_version"@ || name == "namespace"@ || name == "metadata"@ || name == "description"@ || name == "dsl_definitions"@ || name == "imports"@ || name == "artifact_types"@ || name == "data_types"@ || name == "capability_types"@ || name == "interface_types"@ || name == "relationship_types"@ || name == "node_types"@ || name == "group_types"@ || name == "policy_types"@ || name == "topology_template"@),
{
    reveal_strlit("tosca_definitions_version");
    assert("tosca_definitions_version"@.len() == 25);
    reveal_strlit("namespace");
    assert("namespace"@.len() == 9);
    reveal_strlit("metadata");
    assert("metadata"@.len() == 8);
    reveal_strlit("description");
    assert("description"@.len() == 11);
    reveal_strlit("dsl_definitions");
    assert("dsl_definitions"@.len() == 15);
    reveal_strlit("imports");
    assert("imports"@.len() == 7);
    reveal_strlit("artifact_types");
    assert("artifact_types"@.len() == 14);
    reveal_strlit("data_types");
    assert("data_types"@.len() == 10);
    reveal_strlit("capability_types");
    assert("capability_types"@.len() == 16);
    reveal_strlit("interface_types");
    assert("interface_types"@.len() == 15);
    reveal_strlit("relationship_types");
    assert("relationship_types"@.len() == 18);
    reveal_strlit("node_types");
    assert("node_types"@.len() == 10);
    reveal_strlit("group_types");
    assert("group_types"@.len() == 11);
    reveal_strlit("policy_types");
    assert("policy_types"@.len() == 12);
    reveal_strlit("topology_template");
    assert("topology_template"@.len() == 17);
    assert("description"@[0] != "group_types"@[0]);
    assert("dsl_definitions"@[0] != "interface_types"@[0]);
    assert("data_types"@[0] != "node_types"@[0]);
}

/// The fields of a TOSCA 1.3 import definition, `file`, `repository`, `namespace_prefix`, each
/// with the rule it is read by; a TOSCA 1.3 import has no other field.
pub proof fn law_import13_fields(v: ToscaVersion, name: Seq<char>)
    ensures
        schema_rule(v, DefKind::Import13, "file"@) == Some(FieldRule::Field(RelKind::ImportUrl, ValueKind::String)),
        schema_rule(v, DefKind::Import13, "repository"@) == Some(FieldRule::DefRef(Entity::File(FileEntity), Entity::Repository(RepositoryEntity), RelKind::Repository)),
        schema_rule(v, DefKind::Import13, "namespace_prefix"@) == Some(FieldRule::Field(RelKind::ImportNamespace, ValueKind::String)),
        schema_rule(v, DefKind::Import13, name) is Some <==> (name == "file"@ || name == "repository"@ || name == "namespace_prefix"@),
{
    reveal_strlit("file");
    assert("file"@.len() == 4);
    reveal_strlit("repository");
    assert("repository"@.len() == 10);
    reveal_strlit("namespace_prefix");
    assert("namespace_prefix"@.len() == 16);
}

/// The fields of a TOSCA 1.3 artifact definition, `type`, `file`, `repository`, `description`, `deploy_path`, `artifact_version`, `checksum`, `checksum_algorithm`, `properties`, each
/// with the rule it is read by; a TOSCA 1.3 artifact has no other field.
pub proof fn law_artifact13_fields(v: ToscaVersion, name: Seq<char>)
    ensures
        schema_rule(v, DefKind::Artifact13, "type"@) == Some(FieldRule::TypeRef(Entity::Artifact(ArtifactEntity), RelKind::HasType)),
        schema_rule(v, DefKind::Artifact13, "file"@) == Some(FieldRule::Field(RelKind::HasFile, ValueKind::String)),
        schema_rule(v, DefKind::Artifact13, "repository"@) == Some(FieldRule::Field(RelKind::Repository, ValueKind::String)),
        schema_rule(v, DefKind::Artifact13, "description"@) == Some(FieldRule::Field(RelKind::Description, ValueKind::String)),
        schema_rule(v, DefKind::Artifact13, "deploy_path"@) == Some(FieldRule::Field(RelKind::Definition, ValueKind::String)),
        schema_rule(v, DefKind::Artifact13, "artifact_version"@) == Some(FieldRule::Field(RelKind::Version, ValueKind::String)),
        schema_rule(v, DefKind::Artifact13, "checksum"@) == Some(FieldRule::Field(RelKind::Checksum, ValueKind::String)),
        schema_rule(v, DefKind::Artifact13, "checksum_algorithm"@) == Some(FieldRule::Field(RelKind::ChecksumAlgorithm, ValueKind::String)),
        schema_rule(v, DefKind::Artifact13, "properties"@) == Some(FieldRule::Collection(RelKind::Assignment, ValueKind::Any)),
        schema_rule(v, DefKind::Artifact13, name) is Some <==> (name == "type"@ || name == "file"@ || name == "repository"@ || name == "description"@ || name == "deploy_path"@ || name == "artifact_version"@ || name == "checksum"@ || name == "checksum_algorithm"@ || name == "properties"@),
{
    reveal_strlit("type");
    assert("type"@.len() == 4);
    reveal_strlit("file");
    assert("file"@.len() == 4);
    reveal_strlit("repository");
    assert("repository"@.len() == 10);
    reveal_strlit("description");
    assert("description"@.len() == 11);
    reveal_strlit("deploy_path");
    assert("deploy_path"@.len() == 11);
    reveal_strlit("artifact_version");
    assert("artifact_version"@.len() == 16);
    reveal_strlit("checksum");
    assert("checksum"@.len() == 8);
    reveal_strlit("checksum_algorithm");
    assert("checksum_algorithm"@.len() == 18);
    reveal_strlit("properties");
    assert("properties"@.len() == 10);
    assert("type"@[0] != "file"@[0]);
    assert("repository"@[0] != "properties"@[0]);
    assert("description"@[2] != "deploy_path"@[2]);
}

/// The fields of a TOSCA 1.3 implementation definition, `primary`, `dependencies`, `timeout`, `operation_host`, each
/// with the rule it is read by; a TOSCA 1.3 implementation has no other field.
pub proof fn law_implementation13_fields(v: ToscaVersion, name: Seq<char>)
    ensures
        schema_rule(v, DefKind::Implementation13, "primary"@) == Some(FieldRule::ArtifactRef(RelKind::PrimaryArtifact)),
        schema_rule(v, DefKind::Implementation13, "dependencies"@) == Some(FieldRule::ArtifactRefList(RelKind::PrimaryArtifact)),
        schema_rule(v, DefKind::Implementation13, "timeout"@) == Some(FieldRule::Field(RelKind::Definition, ValueKind::Int)),
        schema_rule(v, DefKind::Implementation13, "operation_host"@) == Some(FieldRule::Field(RelKind::Definition, ValueKind::String)),
        schema_rule(v, DefKind::Implementation13, name) is Some <==> (name == "primary"@ || name == "dependencies"@ || name == "timeout"@ || name == "operation_host"@),
{
    reveal_strlit("primary");
    assert("primary"@.len() == 7);
    reveal_strlit("dependencies");
    assert("dependencies"@.len() == 12);
    reveal_strlit("timeout");
    assert("timeout"@.len() == 7);
    reveal_strlit("operation_host");
    assert("operation_host"@.len() == 14);
    assert("primary"@[0] != "timeout"@[0]);
}

/// The fields of a TOSCA 1.3 relationship type definition, `derived_from`, `version`, `metadata`, `description`, `properties`, `attributes`, `interfaces`, `valid_target_types`, each
/// with the rule it is read by; a TOSCA 1.3 relationship type has no other field.
pub proof fn law_relationship_type13_fields(v: ToscaVersion, name: Seq<char>)
    ensures
        schema_rule(v, DefKind::RelationshipType13, "derived_from"@) == Some(FieldRule::TypeRef(Entity::Relationship(RelationshipEntity), RelKind::DerivedFrom)),
        schema_rule(v, DefKind::RelationshipType13, "version"@) == Some(FieldRule::Field(RelKind::Version, ValueKind::String)),
        schema_rule(v, DefKind::RelationshipType13, "metadata"@) == Some(FieldRule::Collection(RelKind::Metadata, ValueKind::Any)),
        schema_rule(v, DefKind::RelationshipType13, "description"@) == Some(FieldRule::Field(RelKind::Description, ValueKind::String)),
        schema_rule(v, DefKind::RelationshipType13, "properties"@) == Some(FieldRule::Collection(RelKind::Definition, ValueKind::Def(spec_slot(v, DefKind::Property)))),
        schema_rule(v, DefKind::RelationshipType13, "attributes"@) == Some(FieldRule::Collection(RelKind::Definition, ValueKind::Def(spec_slot(v, DefKind::Attribute)))),
        schema_rule(v, DefKind::RelationshipType13, "interfaces"@) == Some(FieldRule::Collection(RelKind::Definition, ValueKind::Def(spec_slot(v, DefKind::Interface)))),
        schema_rule(v, DefKind::RelationshipType13, "valid_target_types"@) == Some(FieldRule::TypeRefList(Entity::Capability(CapabilityEntity), RelKind::ValidCapabilityType)),
        schema_rule(v, DefKind::RelationshipType13, name) is Some <==> (name == "derived_from"@ || name == "version"@ || name == "metadata"@ || name == "description"@ || name == "properties"@ || name == "attributes"@ || name == "interfaces"@ || name == "valid_target_types"@),
{
    reveal_strlit("derived_from");
    assert("derived_from"@.len() == 12);
    reveal_strlit("version");
    assert("version"@.len() == 7);
    reveal_strlit("metadata");
    assert("metadata"@.len() == 8);
    reveal_strlit("description");
    assert("description"@.len() == 11);
    reveal_strlit("properties");
    assert("properties"@.len() == 10);
    reveal_strlit("attributes");
    assert("attributes"@.len() == 10);
    reveal_strlit("interfaces");
    assert("interfaces"@.len() == 10);
    reveal_strlit("valid_target_types");
    assert("valid_target_types"@.len() == 18);
    assert("properties"@[0] != "attributes"@[0]);
    assert("properties"@[0] != "interfaces"@[0]);
    assert("attributes"@[0] != "interfaces"@[0]);
}

/// Each kind of definition creates the entity of its own kind: a node type
/// or template a node, a data type, schema, attribute, property or parameter
/// a data entity, a group type or group a group, and so on; the TOSCA 1.3
/// forms create what the forms they stand for create.
pub proof fn law_definitions_create_their_entity()
    ensures
        entity_of(DefKind::File) == Entity::File(FileEntity),
        entity_of(DefKind::Import) == Entity::Import(ImportEntity),
        entity_of(DefKind::ServiceTemplate) == Entity::ServiceTemplate(ServiceTemplateEntity),
        entity_of(DefKind::SubstitutionMapping) == Entity::SubstitutionMapping(SubstitutionMappingEntity),
        entity_of(DefKind::NodeType) == Entity::Node(NodeEntity),
        entity_of(DefKind::NodeTemplate) == Entity::Node(NodeEntity),
        entity_of(DefKind::DataType) == Entity::Data(DataEntity),
        entity_of(DefKind::Schema) == Entity::Data(DataEntity),
        entity_of(DefKind::Attribute) == Entity::Data(DataEntity),
        entity_of(DefKind::Property) == Entity::Data(DataEntity),
        entity_of(DefKind::Parameter) == Entity::Data(DataEntity),
        entity_of(DefKind::ArtifactType) == Entity::Artifact(ArtifactEntity),
        entity_of(DefKind::Artifact) == Entity::Artifact(ArtifactEntity),
        entity_of(DefKind::Implementation) == Entity::Implementation(ImplementationEntity),
        entity_of(DefKind::CapabilityType) == Entity::Capability(CapabilityEntity),
        entity_of(DefKind::Capability) == Entity::Capability(CapabilityEntity),
        entity_of(DefKind::CapabilityAssignment) == Entity::Capability(CapabilityEntity),
        entity_of(DefKind::GroupType) == Entity::Group(GroupEntity),
        entity_of(DefKind::Group) == Entity::Group(GroupEntity),
        entity_of(DefKind::PolicyType) == Entity::Policy(PolicyEntity),
        entity_of(DefKind::Policy) == Entity::Policy(PolicyEntity),
        entity_of(DefKind::PolicyTrigger) == Entity::PolicyTrigger(PolicyTriggerEntity),
        entity_of(DefKind::InterfaceType) == Entity::Interface(InterfaceEntity),
        entity_of(DefKind::Interface) == Entity::Interface(InterfaceEntity),
        entity_of(DefKind::InterfaceAssignment) == Entity::Interface(InterfaceEntity),
        entity_of(DefKind::Operation) == Entity::Operation(OperationEntity),
        entity_of(DefKind::OperationAssignment) == Entity::Operation(OperationEntity),
        entity_of(DefKind::Notification) == Entity::Notification(NotificationEntity),
        entity_of(DefKind::NotificationAssignment) == Entity::Notification(NotificationEntity),
        entity_of(DefKind::RelationshipType) == Entity::Relationship(RelationshipEntity),
        entity_of(DefKind::RelationshipTemplate) == Entity::Relationship(RelationshipEntity),
        entity_of(DefKind::Relationship) == Entity::Relationship(RelationshipEntity),
        entity_of(DefKind::RelationshipAssignment) == Entity::Relationship(RelationshipEntity),
        entity_of(DefKind::Requirement) == Entity::Requirement(RequirementEntity),
        entity_of(DefKind::RequirementAssignment) == Entity::Requirement(RequirementEntity),
        entity_of(DefKind::Workflow) == Entity::Workflow(WorkflowEntity),
        entity_of(DefKind::WorkflowStep) == Entity::WorkflowStep(WorkflowStepEntity),
        entity_of(DefKind::WorkflowDelegateActivity) == Entity::WorkflowDelegateActivity(WorkflowDelegateActivityEntity),
        entity_of(DefKind::WorkflowInlineActivity) == Entity::WorkflowInlineActivity(WorkflowInlineActivityEntity),
        entity_of(DefKind::WorkflowSetStateActivity) == Entity::WorkflowSetStateActivity(WorkflowSetStateActivityEntity),
        entity_of(DefKind::WorkflowCallOperationActivity) == Entity::WorkflowCallOperationActivity(WorkflowCallOperationActivityEntity),
        entity_of(DefKind::FunctionSignature) == Entity::FunctionSignature(FunctionSignatureEntity),
        entity_of(DefKind::Function) == Entity::Function(FunctionEntity),
        entity_of(DefKind::Repository) == Entity::Repository(RepositoryEntity),
        entity_of(DefKind::File13) == Entity::File(FileEntity),
        entity_of(DefKind::Import13) == Entity::Import(ImportEntity),
        entity_of(DefKind::Artifact13) == Entity::Artifact(ArtifactEntity),
        entity_of(DefKind::Implementation13) == Entity::Implementation(ImplementationEntity),
        entity_of(DefKind::RelationshipType13) == Entity::Relationship(RelationshipEntity),
{
}

/// Reading a kind of definition under either version creates the same
/// entity: the form a version uses in its place creates what it creates.
pub proof fn law_slot_keeps_the_entity(v: ToscaVersion, k: DefKind)
    ensures
        entity_of(spec_slot(v, k)) == entity_of(k),
{
}

/// TOSCA 2.0 reads each definition in its own form. TOSCA 1.3 reads files,
/// imports, artifacts, implementations and relationship types in their 1.3
/// forms, and every other definition as TOSCA 2.0 does.
pub proof fn law_version_forms(k: DefKind)
    ensures
        spec_slot(ToscaVersion::V2_0, k) == k,
        spec_slot(ToscaVersion::V1_3, DefKind::File) == DefKind::File13,
        spec_slot(ToscaVersion::V1_3, DefKind::Import) == DefKind::Import13,
        spec_slot(ToscaVersion::V1_3, DefKind::Artifact) == DefKind::Artifact13,
        spec_slot(ToscaVersion::V1_3, DefKind::Implementation) == DefKind::Implementation13,
        spec_slot(ToscaVersion::V1_3, DefKind::RelationshipType) == DefKind::RelationshipType13,
        k != DefKind::File && k != DefKind::Import && k != DefKind::Artifact && k != DefKind::Implementation
            && k != DefKind::RelationshipType ==> spec_slot(ToscaVersion::V1_3, k) == k,
{
}

/// Each kind of link makes the relation of the same name, whatever the key;
/// a relation that carries a name or a position carries the key's.
pub proof fn law_relations_of_their_kind(key: RelKey)
    ensures
        relation_view_for(RelKind::ToscaDefinitionsVersion, key) == RelationView::ToscaDefinitionsVersion,
        relation_view_for(RelKind::ServiceTemplate, key) == RelationView::ServiceTemplate,
        relation_view_for(RelKind::Repository, key) == RelationView::Repository,
        relation_view_for(RelKind::Profile, key) == RelationView::Profile,
        relation_view_for(RelKind::Description, key) == RelationView::Description,
        relation_view_for(RelKind::Namespace, key) == RelationView::Namespace,
        relation_view_for(RelKind::Version, key) == RelationView::Version,
        relation_view_for(RelKind::Import, key) == RelationView::Import(key_index(key)),
        relation_view_for(RelKind::ImportTarget, key) == RelationView::ImportTarget,
        relation_view_for(RelKind::ImportUrl, key) == RelationView::ImportUrl,
        relation_view_for(RelKind::ImportFile, key) == RelationView::ImportFile,
        relation_view_for(RelKind::ImportProfile, key) == RelationView::ImportProfile,
        relation_view_for(RelKind::ImportRepository, key) == RelationView::ImportRepository,
        relation_view_for(RelKind::ImportNamespace, key) == RelationView::ImportNamespace,
        relation_view_for(RelKind::Type, key) == RelationView::Type(key_name(key)),
        relation_view_for(RelKind::Definition, key) == RelationView::Definition(key_name(key)),
        relation_view_for(RelKind::OrderedDefinition, key) == RelationView::OrderedDefinition(key_name(key), key_index(key)),
        relation_view_for(RelKind::Assignment, key) == RelationView::Assignment(key_name(key)),
        relation_view_for(RelKind::OrderedAssignment, key) == RelationView::OrderedAssignment(key_name(key), key_index(key)),
        relation_view_for(RelKind::Validation, key) == RelationView::Validation,
        relation_view_for(RelKind::Value, key) == RelationView::Value,
        relation_view_for(RelKind::Mapping, key) == RelationView::Mapping,
        relation_view_for(RelKind::Required, key) == RelationView::Required,
        relation_view_for(RelKind::Status, key) == RelationView::Status,
        relation_view_for(RelKind::Default, key) == RelationView::Default,
        relation_view_for(RelKind::ExternalSchema, key) == RelationView::ExternalSchema,
        relation_view_for(RelKind::Metadata, key) == RelationView::Metadata(key_name(key)),
        relation_view_for(RelKind::Schema, key) == RelationView::Schema,
        relation_view_for(RelKind::KeySchema, key) == RelationView::KeySchema,
        relation_view_for(RelKind::EntrySchema, key) == RelationView::EntrySchema,
        relation_view_for(RelKind::Root, key) == RelationView::Root,
        relation_view_for(RelKind::HasType, key) == RelationView::HasType,
        relation_view_for(RelKind::DerivedFrom, key) == RelationView::DerivedFrom,
        relation_view_for(RelKind::SubstitutesType, key) == RelationView::SubstitutesType,
        relation_view_for(RelKind::MimeType, key) == RelationView::MimeType,
        relation_view_for(RelKind::FileExt, key) == RelationView::FileExt(key_index(key)),
        relation_view_for(RelKind::HasFile, key) == RelationView::HasFile,
        relation_view_for(RelKind::Checksum, key) == RelationView::Checksum,
        relation_view_for(RelKind::ChecksumAlgorithm, key) == RelationView::ChecksumAlgorithm,
        relation_view_for(RelKind::PrimaryArtifact, key) == RelationView::PrimaryArtifact,
        relation_view_for(RelKind::DependencyArtifact, key) == RelationView::DependencyArtifact(key_index(key)),
        relation_view_for(RelKind::ValidSourceNodeType, key) == RelationView::ValidSourceNodeType,
        relation_view_for(RelKind::ValidRelationshipType, key) == RelationView::ValidRelationshipType,
        relation_view_for(RelKind::Directive, key) == RelationView::Directive(key_index(key)),
        relation_view_for(RelKind::MemberNodeTemplate, key) == RelationView::MemberNodeTemplate,
        relation_view_for(RelKind::MemberNodeType, key) == RelationView::MemberNodeType,
        relation_view_for(RelKind::ValidCapabilityType, key) == RelationView::ValidCapabilityType,
        relation_view_for(RelKind::ValidTargetNodeType, key) == RelationView::ValidTargetNodeType,
        relation_view_for(RelKind::TargetNode, key) == RelationView::TargetNode,
        relation_view_for(RelKind::TargetCapability, key) == RelationView::TargetCapability,
        relation_view_for(RelKind::SubstitutionMapping, key) == RelationView::SubstitutionMapping,
        relation_view_for(RelKind::WorkflowActivity, key) == RelationView::WorkflowActivity(key_index(key)),
        relation_view_for(RelKind::Workflow, key) == RelationView::Workflow,
        relation_view_for(RelKind::Operation, key) == RelationView::Operation,
        relation_view_for(RelKind::PolicyTriggerEvent, key) == RelationView::PolicyTriggerEvent,
        relation_view_for(RelKind::FunctionArgument, key) == RelationView::FunctionArgument(key_index(key)),
        relation_view_for(RelKind::FunctionOptionalArgument, key) == RelationView::FunctionOptionalArgument(key_index(key)),
        relation_view_for(RelKind::FunctionSignature, key) == RelationView::FunctionSignature(key_index(key)),
        relation_view_for(RelKind::RepositoryUrl, key) == RelationView::RepositoryUrl,
{
}

/// A key carries the name and the position it was made with: a name key
/// its name, a position key its position, a pair both; what a key lacks is
/// empty, or 0.
pub proof fn law_key_parts(s: String, i: usize)
    ensures
        key_name(RelKey::Name(s)) == s@,
        key_index(RelKey::Name(s)) == 0,
        key_name(RelKey::Index(i)) == Seq::<char>::empty(),
        key_index(RelKey::Index(i)) == i,
        key_name(RelKey::Pair(s, i)) == s@,
        key_index(RelKey::Pair(s, i)) == i,
        key_name(RelKey::Unit) == Seq::<char>::empty(),
        key_index(RelKey::Unit) == 0,
{
}

/// Each relation is seen as the relation of the same name, with the name
/// or position it carries.
pub proof fn law_relation_views(r: Relation)
    ensures
        (r matches Relation::Ref(x) ==> r@ == RelationView::Ref(x)),
        r is ToscaDefinitionsVersion ==> r@ == RelationView::ToscaDefinitionsVersion,
        r is ServiceTemplate ==> r@ == RelationView::ServiceTemplate,
        r is Repository ==> r@ == RelationView::Repository,
        r is Profile ==> r@ == RelationView::Profile,
        r is Description ==> r@ == RelationView::Description,
        r is Namespace ==> r@ == RelationView::Namespace,
        r is Version ==> r@ == RelationView::Version,
        (r matches Relation::Import(x) ==> r@ == RelationView::Import(x.0)),
        r is ImportTarget ==> r@ == RelationView::ImportTarget,
        r is ImportUrl ==> r@ == RelationView::ImportUrl,
        r is ImportFile ==> r@ == RelationView::ImportFile,
        r is ImportProfile ==> r@ == RelationView::ImportProfile,
        r is ImportRepository ==> r@ == RelationView::ImportRepository,
        r is ImportNamespace ==> r@ == RelationView::ImportNamespace,
        (r matches Relation::Type(x) ==> r@ == RelationView::Type(x.0@)),
        (r matches Relation::Definition(x) ==> r@ == RelationView::Definition(x.0@)),
        (r matches Relation::OrderedDefinition(x) ==> r@ == RelationView::OrderedDefinition(x.0.0@, x.0.1)),
        (r matches Relation::Assignment(x) ==> r@ == RelationView::Assignment(x.0@)),
        (r matches Relation::OrderedAssignment(x) ==> r@ == RelationView::OrderedAssignment(x.0.0@, x.0.1)),
        r is Validation ==> r@ == RelationView::Validation,
        r is Value ==> r@ == RelationView::Value,
        r is Mapping ==> r@ == RelationView::Mapping,
        r is Required ==> r@ == RelationView::Required,
        r is Status ==> r@ == RelationView::Status,
        r is Default ==> r@ == RelationView::Default,
        r is ExternalSchema ==> r@ == RelationView::ExternalSchema,
        (r matches Relation::Metadata(x) ==> r@ == RelationView::Metadata(x.0@)),
        r is Schema ==> r@ == RelationView::Schema,
        r is KeySchema ==> r@ == RelationView::KeySchema,
        r is EntrySchema ==> r@ == RelationView::EntrySchema,
        r is Root ==> r@ == RelationView::Root,
        r is HasType ==> r@ == RelationView::HasType,
        r is DerivedFrom ==> r@ == RelationView::DerivedFrom,
        r is SubstitutesType ==> r@ == RelationView::SubstitutesType,
        r is MimeType ==> r@ == RelationView::MimeType,
        (r matches Relation::FileExt(x) ==> r@ == RelationView::FileExt(x.0)),
        r is HasFile ==> r@ == RelationView::HasFile,
        r is Checksum ==> r@ == RelationView::Checksum,
        r is ChecksumAlgorithm ==> r@ == RelationView::ChecksumAlgorithm,
        r is PrimaryArtifact ==> r@ == RelationView::PrimaryArtifact,
        (r matches Relation::DependencyArtifact(x) ==> r@ == RelationView::DependencyArtifact(x.0)),
        r is ValidSourceNodeType ==> r@ == RelationView::ValidSourceNodeType,
        r is ValidRelationshipType ==> r@ == RelationView::ValidRelationshipType,
        (r matches Relation::Directive(x) ==> r@ == RelationView::Directive(x.0)),
        r is MemberNodeTemplate ==> r@ == RelationView::MemberNodeTemplate,
        r is MemberNodeType ==> r@ == RelationView::MemberNodeType,
        r is ValidCapabilityType ==> r@ == RelationView::ValidCapabilityType,
        r is ValidTargetNodeType ==> r@ == RelationView::ValidTargetNodeType,
        r is TargetNode ==> r@ == RelationView::TargetNode,
        r is TargetCapability ==> r@ == RelationView::TargetCapability,
        r is SubstitutionMapping ==> r@ == RelationView::SubstitutionMapping,
        (r matches Relation::WorkflowActivity(x) ==> r@ == RelationView::WorkflowActivity(x.0)),
        r is Workflow ==> r@ == RelationView::Workflow,
        r is Operation ==> r@ == RelationView::Operation,
        r is PolicyTriggerEvent ==> r@ == RelationView::PolicyTriggerEvent,
        (r matches Relation::FunctionArgument(x) ==> r@ == RelationView::FunctionArgument(x.0)),
        (r matches Relation::FunctionOptionalArgument(x) ==> r@ == RelationView::FunctionOptionalArgument(x.0)),
        (r matches Relation::FunctionSignature(x) ==> r@ == RelationView::FunctionSignature(x.0)),
        r is RepositoryUrl ==> r@ == RelationView::RepositoryUrl,
{
}

/// The field checks of an import definition: each check that fails
/// reports its one error (Custom("url and profile are mutually exclusive"), MissingField("url or profile"), Custom("can only be used when a url is specified")), and nothing else is reported.
pub proof fn law_import_checks(fields: Seq<Seq<char>>)
    ensures
        validation_errors(DefKind::Import, fields).len() == (if fields.contains("url"@) && fields.contains("profile"@) { 1int } else { 0int }) + (if !fields.contains("url"@) && !fields.contains("profile"@) { 1int } else { 0int }) + (if fields.contains("repository"@) && !fields.contains("url"@) { 1int } else { 0int }),
        fields.contains("url"@) && fields.contains("profile"@) ==> validation_errors(DefKind::Import, fields).contains(ErrorView::Custom("url and profile are mutually exclusive"@)),
        !fields.contains("url"@) && !fields.contains("profile"@) ==> validation_errors(DefKind::Import, fields).contains(ErrorView::MissingField("url or profile"@)),
        fields.contains("repository"@) && !fields.contains("url"@) ==> validation_errors(DefKind::Import, fields).contains(ErrorView::Custom("can only be used when a url is specified"@)),
{
    let s = validation_errors(DefKind::Import, fields);
    if fields.contains("url"@) && fields.contains("profile"@) {
        assert(s[0int] == ErrorView::Custom("url and profile are mutually exclusive"@));
    }
    if !fields.contains("url"@) && !fields.contains("profile"@) {
        assert(s[0int + (if fields.contains("url"@) && fields.contains("profile"@) { 1int } else { 0int })] == ErrorView::MissingField("url or profile"@));
    }
    if fields.contains("repository"@) && !fields.contains("url"@) {
        assert(s[0int + (if fields.contains("url"@) && fields.contains("profile"@) { 1int } else { 0int }) + (if !fields.contains("url"@) && !fields.contains("profile"@) { 1int } else { 0int })] == ErrorView::Custom("can only be used when a url is specified"@));
    }
}

/// The field checks of a substitution mapping definition: each check that fails
/// reports its one error (MissingField("node_type")), and nothing else is reported.
pub proof fn law_substitution_mapping_checks(fields: Seq<Seq<char>>)
    ensures
        validation_errors(DefKind::SubstitutionMapping, fields).len() == (if !fields.contains("node_type"@) { 1int } else { 0int }),
        !fields.contains("node_type"@) ==> validation_errors(DefKind::SubstitutionMapping, fields).contains(ErrorView::MissingField("node_type"@)),
{
    let s = validation_errors(DefKind::SubstitutionMapping, fields);
    if !fields.contains("node_type"@) {
        assert(s[0int] == ErrorView::MissingField("node_type"@));
    }
}

/// The field checks of a schema definition: each check that fails
/// reports its one error (MissingField("type")), and nothing else is reported.
pub proof fn law_schema_checks(fields: Seq<Seq<char>>)
    ensures
        validation_errors(DefKind::Schema, fields).len() == (if !fields.contains("type"@) { 1int } else { 0int }),
        !fields.contains("type"@) ==> validation_errors(DefKind::Schema, fields).contains(ErrorView::MissingField("type"@)),
{
    let s = validation_errors(DefKind::Schema, fields);
    if !fields.contains("type"@) {
        assert(s[0int] == ErrorView::MissingField("type"@));
    }
}

/// The field checks of an attribute definition: each check that fails
/// reports its one error (MissingField("type")), and nothing else is reported.
pub proof fn law_attribute_checks(fields: Seq<Seq<char>>)
    ensures
        validation_errors(DefKind::Attribute, fields).len() == (if !fields.contains("type"@) { 1int } else { 0int }),
        !fields.contains("type"@) ==> validation_errors(DefKind::Attribute, fields).contains(ErrorView::MissingField("type"@)),
{
    let s = validation_errors(DefKind::Attribute, fields);
    if !fields.contains("type"@) {
        assert(s[0int] == ErrorView::MissingField("type"@));
    }
}

/// The field checks of a property definition: each check that fails
/// reports its one error (MissingField("type")), and nothing else is reported.
pub proof fn law_property_checks(fields: Seq<Seq<char>>)
    ensures
        validation_errors(DefKind::Property, fields).len() == (if !fields.contains("type"@) { 1int } else { 0int }),
        !fields.contains("type"@) ==> validation_errors(DefKind::Property, fields).contains(ErrorView::MissingField("type"@)),
{
    let s = validation_errors(DefKind::Property, fields);
    if !fields.contains("type"@) {
        assert(s[0int] == ErrorView::MissingField("type"@));
    }
}

/// The field checks of an artifact definition: each check that fails
/// reports its one error (MissingField("type"), MissingField("file")), and nothing else is reported.
pub proof fn law_artifact_checks(fields: Seq<Seq<char>>)
    ensures
        validation_errors(DefKind::Artifact, fields).len() == (if !fields.contains("type"@) { 1int } else { 0int }) + (if !fields.contains("file"@) { 1int } else { 0int }),
        !fields.contains("type"@) ==> validation_errors(DefKind::Artifact, fields).contains(ErrorView::MissingField("type"@)),
        !fields.contains("file"@) ==> validation_errors(DefKind::Artifact, fields).contains(ErrorView::MissingField("file"@)),
{
    let s = validation_errors(DefKind::Artifact, fields);
    if !fields.contains("type"@) {
        assert(s[0int] == ErrorView::MissingField("type"@));
    }
    if !fields.contains("file"@) {
        assert(s[0int + (if !fields.contains("type"@) { 1int } else { 0int })] == ErrorView::MissingField("file"@));
    }
}

/// The field checks of a capability definition: each check that fails
/// reports its one error (MissingField("type")), and nothing else is reported.
pub proof fn law_capability_checks(fields: Seq<Seq<char>>)
    ensures
        validation_errors(DefKind::Capability, fields).len() == (if !fields.contains("type"@) { 1int } else { 0int }),
        !fields.contains("type"@) ==> validation_errors(DefKind::Capability, fields).contains(ErrorView::MissingField("type"@)),
{
    let s = validation_errors(DefKind::Capability, fields);
    if !fields.contains("type"@) {
        assert(s[0int] == ErrorView::MissingField("type"@));
    }
}

/// The field checks of a group definition: each check that fails
/// reports its one error (MissingField("type")), and nothing else is reported.
pub proof fn law_group_checks(fields: Seq<Seq<char>>)
    ensures
        validation_errors(DefKind::Group, fields).len() == (if !fields.contains("type"@) { 1int } else { 0int }),
        !fields.contains("type"@) ==> validation_errors(DefKind::Group, fields).contains(ErrorView::MissingField("type"@)),
{
    let s = validation_errors(DefKind::Group, fields);
    if !fields.contains("type"@) {
        assert(s[0int] == ErrorView::MissingField("type"@));
    }
}

/// The field checks of a policy definition: each check that fails
/// reports its one error (MissingField("type")), and nothing else is reported.
pub proof fn law_policy_checks(fields: Seq<Seq<char>>)
    ensures
        validation_errors(DefKind::Policy, fields).len() == (if !fields.contains("type"@) { 1int } else { 0int }),
        !fields.contains("type"@) ==> validation_errors(DefKind::Policy, fields).contains(ErrorView::MissingField("type"@)),
{
    let s = validation_errors(DefKind::Policy, fields);
    if !fields.contains("type"@) {
        assert(s[0int] == ErrorView::MissingField("type"@));
    }
}

/// The field checks of a policy trigger definition: each check that fails
/// reports its one error (MissingField("event"), MissingField("action")), and nothing else is reported.
pub proof fn law_policy_trigger_checks(fields: Seq<Seq<char>>)
    ensures
        validation_errors(DefKind::PolicyTrigger, fields).len() == (if !fields.contains("event"@) { 1int } else { 0int }) + (if !fields.contains("action"@) { 1int } else { 0int }),
        !fields.contains("event"@) ==> validation_errors(DefKind::PolicyTrigger, fields).contains(ErrorView::MissingField("event"@)),
        !fields.contains("action"@) ==> validation_errors(DefKind::PolicyTrigger, fields).contains(ErrorView::MissingField("action"@)),
{
    let s = validation_errors(DefKind::PolicyTrigger, fields);
    if !fields.contains("event"@) {
        assert(s[0int] == ErrorView::MissingField("event"@));
    }
    if !fields.contains("action"@) {
        assert(s[0int + (if !fields.contains("event"@) { 1int } else { 0int })] == ErrorView::MissingField("action"@));
    }
}

/// The field checks of an interface definition: each check that fails
/// reports its one error (MissingField("type")), and nothing else is reported.
pub proof fn law_interface_checks(fields: Seq<Seq<char>>)
    ensures
        validation_errors(DefKind::Interface, fields).len() == (if !fields.contains("type"@) { 1int } else { 0int }),
        !fields.contains("type"@) ==> validation_errors(DefKind::Interface, fields).contains(ErrorView::MissingField("type"@)),
{
    let s = validation_errors(DefKind::Interface, fields);
    if !fields.contains("type"@) {
        assert(s[0int] == ErrorView::MissingField("type"@));
    }
}

/// The field checks of a relationship template definition: each check that fails
/// reports its one error (MissingField("type")), and nothing else is reported.
pub proof fn law_relationship_template_checks(fields: Seq<Seq<char>>)
    ensures
        validation_errors(DefKind::RelationshipTemplate, fields).len() == (if !fields.contains("type"@) { 1int } else { 0int }),
        !fields.contains("type"@) ==> validation_errors(DefKind::RelationshipTemplate, fields).contains(ErrorView::MissingField("type"@)),
{
    let s = validation_errors(DefKind::RelationshipTemplate, fields);
    if !fields.contains("type"@) {
        assert(s[0int] == ErrorView::MissingField("type"@));
    }
}

/// The field checks of a relationship definition: each check that fails
/// reports its one error (MissingField("type")), and nothing else is reported.
pub proof fn law_relationship_checks(fields: Seq<Seq<char>>)
    ensures
        validation_errors(DefKind::Relationship, fields).len() == (if !fields.contains("type"@) { 1int } else { 0int }),
        !fields.contains("type"@) ==> validation_errors(DefKind::Relationship, fields).contains(ErrorView::MissingField("type"@)),
{
    let s = validation_errors(DefKind::Relationship, fields);
    if !fields.contains("type"@) {
        assert(s[0int] == ErrorView::MissingField("type"@));
    }
}

/// The field checks of a requirement definition: each check that fails
/// reports its one error (MissingField("capability")), and nothing else is reported.
pub proof fn law_requirement_checks(fields: Seq<Seq<char>>)
    ensures
        validation_errors(DefKind::Requirement, fields).len() == (if !fields.contains("capability"@) { 1int } else { 0int }),
        !fields.contains("capability"@) ==> validation_errors(DefKind::Requirement, fields).contains(ErrorView::MissingField("capability"@)),
{
    let s = validation_errors(DefKind::Requirement, fields);
    if !fields.contains("capability"@) {
        assert(s[0int] == ErrorView::MissingField("capability"@));
    }
}

/// The field checks of a workflow definition: each check that fails
/// reports its one error (Custom("steps and implementation are mutually exclusive"), MissingField("steps or implementation")), and nothing else is reported.
pub proof fn law_workflow_checks(fields: Seq<Seq<char>>)
    ensures
        validation_errors(DefKind::Workflow, fields).len() == (if fields.contains("steps"@) && fields.contains("implementation"@) { 1int } else { 0int }) + (if !fields.contains("steps"@) && !fields.contains("implementation"@) { 1int } else { 0int }),
        fields.contains("steps"@) && fields.contains("implementation"@) ==> validation_errors(DefKind::Workflow, fields).contains(ErrorView::Custom("steps and implementation are mutually exclusive"@)),
        !fields.contains("steps"@) && !fields.contains("implementation"@) ==> validation_errors(DefKind::Workflow, fields).contains(ErrorView::MissingField("steps or implementation"@)),
{
    let s = validation_errors(DefKind::Workflow, fields);
    if fields.contains("steps"@) && fields.contains("implementation"@) {
        assert(s[0int] == ErrorView::Custom("steps and implementation are mutually exclusive"@));
    }
    if !fields.contains("steps"@) && !fields.contains("implementation"@) {
        assert(s[0int + (if fields.contains("steps"@) && fields.contains("implementation"@) { 1int } else { 0int })] == ErrorView::MissingField("steps or implementation"@));
    }
}

/// The field checks of a workflow step definition: each check that fails
/// reports its one error (MissingField("target"), MissingField("activities")), and nothing else is reported.
pub proof fn law_workflow_step_checks(fields: Seq<Seq<char>>)
    ensures
        validation_errors(DefKind::WorkflowStep, fields).len() == (if !fields.contains("target"@) { 1int } else { 0int }) + (if !fields.contains("activities"@) { 1int } else { 0int }),
        !fields.contains("target"@) ==> validation_errors(DefKind::WorkflowStep, fields).contains(ErrorView::MissingField("target"@)),
        !fields.contains("activities"@) ==> validation_errors(DefKind::WorkflowStep, fields).contains(ErrorView::MissingField("activities"@)),
{
    let s = validation_errors(DefKind::WorkflowStep, fields);
    if !fields.contains("target"@) {
        assert(s[0int] == ErrorView::MissingField("target"@));
    }
    if !fields.contains("activities"@) {
        assert(s[0int + (if !fields.contains("target"@) { 1int } else { 0int })] == ErrorView::MissingField("activities"@));
    }
}

/// The field checks of a workflow delegate activity definition: each check that fails
/// reports its one error (MissingField("workflow")), and nothing else is reported.
pub proof fn law_workflow_delegate_activity_checks(fields: Seq<Seq<char>>)
    ensures
        validation_errors(DefKind::WorkflowDelegateActivity, fields).len() == (if !fields.contains("workflow"@) { 1int } else { 0int }),
        !fields.contains("workflow"@) ==> validation_errors(DefKind::WorkflowDelegateActivity, fields).contains(ErrorView::MissingField("workflow"@)),
{
    let s = validation_errors(DefKind::WorkflowDelegateActivity, fields);
    if !fields.contains("workflow"@) {
        assert(s[0int] == ErrorView::MissingField("workflow"@));
    }
}

/// The field checks of a workflow inline activity definition: each check that fails
/// reports its one error (MissingField("workflow")), and nothing else is reported.
pub proof fn law_workflow_inline_activity_checks(fields: Seq<Seq<char>>)
    ensures
        validation_errors(DefKind::WorkflowInlineActivity, fields).len() == (if !fields.contains("workflow"@) { 1int } else { 0int }),
        !fields.contains("workflow"@) ==> validation_errors(DefKind::WorkflowInlineActivity, fields).contains(ErrorView::MissingField("workflow"@)),
{
    let s = validation_errors(DefKind::WorkflowInlineActivity, fields);
    if !fields.contains("workflow"@) {
        assert(s[0int] == ErrorView::MissingField("workflow"@));
    }
}

/// The field checks of a workflow call operation activity definition: each check that fails
/// reports its one error (MissingField("operation")), and nothing else is reported.
pub proof fn law_workflow_call_operation_activity_checks(fields: Seq<Seq<char>>)
    ensures
        validation_errors(DefKind::WorkflowCallOperationActivity, fields).len() == (if !fields.contains("operation"@) { 1int } else { 0int }),
        !fields.contains("operation"@) ==> validation_errors(DefKind::WorkflowCallOperationActivity, fields).contains(ErrorView::MissingField("operation"@)),
{
    let s = validation_errors(DefKind::WorkflowCallOperationActivity, fields);
    if !fields.contains("operation"@) {
        assert(s[0int] == ErrorView::MissingField("operation"@));
    }
}

/// The field checks of a function definition: each check that fails
/// reports its one error (MissingField("signatures")), and nothing else is reported.
pub proof fn law_function_checks(fields: Seq<Seq<char>>)
    ensures
        validation_errors(DefKind::Function, fields).len() == (if !fields.contains("signatures"@) { 1int } else { 0int }),
        !fields.contains("signatures"@) ==> validation_errors(DefKind::Function, fields).contains(ErrorView::MissingField("signatures"@)),
{
    let s = validation_errors(DefKind::Function, fields);
    if !fields.contains("signatures"@) {
        assert(s[0int] == ErrorView::MissingField("signatures"@));
    }
}

/// The field checks of a repository definition: each check that fails
/// reports its one error (MissingField("url")), and nothing else is reported.
pub proof fn law_repository_checks(fields: Seq<Seq<char>>)
    ensures
        validation_errors(DefKind::Repository, fields).len() == (if !fields.contains("url"@) { 1int } else { 0int }),
        !fields.contains("url"@) ==> validation_errors(DefKind::Repository, fields).contains(ErrorView::MissingField("url"@)),
{
    let s = validation_errors(DefKind::Repository, fields);
    if !fields.contains("url"@) {
        assert(s[0int] == ErrorView::MissingField("url"@));
    }
}

/// The field checks of a TOSCA 1.3 import definition: each check that fails
/// reports its one error (MissingField("file")), and nothing else is reported.
pub proof fn law_import13_checks(fields: Seq<Seq<char>>)
    ensures
        validation_errors(DefKind::Import13, fields).len() == (if !fields.contains("file"@) { 1int } else { 0int }),
        !fields.contains("file"@) ==> validation_errors(DefKind::Import13, fields).contains(ErrorView::MissingField("file"@)),
{
    let s = validation_errors(DefKind::Import13, fields);
    if !fields.contains("file"@) {
        assert(s[0int] == ErrorView::MissingField("file"@));
    }
}

/// The field checks of a TOSCA 1.3 artifact definition: each check that fails
/// reports its one error (MissingField("type"), MissingField("file")), and nothing else is reported.
pub proof fn law_artifact13_checks(fields: Seq<Seq<char>>)
    ensures
        validation_errors(DefKind::Artifact13, fields).len() == (if !fields.contains("type"@) { 1int } else { 0int }) + (if !fields.contains("file"@) { 1int } else { 0int }),
        !fields.contains("type"@) ==> validation_errors(DefKind::Artifact13, fields).contains(ErrorView::MissingField("type"@)),
        !fields.contains("file"@) ==> validation_errors(DefKind::Artifact13, fields).contains(ErrorView::MissingField("file"@)),
{
    let s = validation_errors(DefKind::Artifact13, fields);
    if !fields.contains("type"@) {
        assert(s[0int] == ErrorView::MissingField("type"@));
    }
    if !fields.contains("file"@) {
        assert(s[0int + (if !fields.contains("type"@) { 1int } else { 0int })] == ErrorView::MissingField("file"@));
    }
}

/// The definitions without field checks report nothing, whatever their
/// fields.
pub proof fn law_unchecked_definitions(k: DefKind, fields: Seq<Seq<char>>)
    ensures
        k != DefKind::Import && k != DefKind::SubstitutionMapping && k != DefKind::Schema && k != DefKind::Attribute && k != DefKind::Property && k != DefKind::Artifact && k != DefKind::Capability && k != DefKind::Group && k != DefKind::Policy && k != DefKind::PolicyTrigger && k != DefKind::Interface && k != DefKind::RelationshipTemplate && k != DefKind::Relationship && k != DefKind::Requirement && k != DefKind::Workflow && k != DefKind::WorkflowStep && k != DefKind::WorkflowDelegateActivity && k != DefKind::WorkflowInlineActivity && k != DefKind::WorkflowCallOperationActivity && k != DefKind::Function && k != DefKind::Repository && k != DefKind::Import13 && k != DefKind::Artifact13 ==> validation_errors(k, fields).len() == 0,
{
}

/// The four status names, and no other string, name a status: `supported`,
/// `unsupported`, `experimental` and `deprecated`, each its own.
pub proof fn law_status_names(s: Seq<char>)
    ensures
        status_named("supported"@) == Some(StatusEntity::Supported),
        status_named("unsupported"@) == Some(StatusEntity::Unsupported),
        status_named("experimental"@) == Some(StatusEntity::Experimental),
        status_named("deprecated"@) == Some(StatusEntity::Deprecated),
        status_named(s) is Some <==> (s == "supported"@ || s == "unsupported"@ || s == "experimental"@
            || s == "deprecated"@),
{
    reveal_strlit("supported");
    reveal_strlit("unsupported");
    reveal_strlit("experimental");
    reveal_strlit("deprecated");
    assert("supported"@.len() == 9);
    assert("unsupported"@.len() == 11);
    assert("experimental"@.len() == 12);
    assert("deprecated"@.len() == 10);
}

/// Different status names name different statuses.
pub proof fn law_status_names_distinct(a: Seq<char>, b: Seq<char>)
    ensures
        status_named(a) is Some && status_named(a) == status_named(b) ==> a == b,
{
}

/// A document selects TOSCA 1.3 by `tosca_simple_yaml_1_3` and TOSCA 2.0 by
/// `tosca_2_0`; different versions have different names.
pub proof fn law_version_names(v: ToscaVersion, w: ToscaVersion)
    ensures
        version_name(ToscaVersion::V1_3) == "tosca_simple_yaml_1_3"@,
        version_name(ToscaVersion::V2_0) == "tosca_2_0"@,
        version_name(v) == version_name(w) ==> v == w,
{
    reveal_strlit("tosca_simple_yaml_1_3");
    reveal_strlit("tosca_2_0");
    assert("tosca_simple_yaml_1_3"@.len() == 21);
    assert("tosca_2_0"@.len() == 9);
}

/// A workflow activity is the kind its one key names: `delegate`, `inline`,
/// `set_state` or `call_operation`; a map whose first key is any other
/// string names no activity.
pub proof fn law_activity_kinds(nodes: Seq<AstEntity>, n: int)
    ensures
        match yaml_map(nodes[n]) {
            Some(es) => es.len() > 0 ==> match yaml_str(nodes[es[0].0 as int]) {
                Some(s) => {
                    &&& (activity_kind(nodes, n) == Some(DefKind::WorkflowDelegateActivity) <==> s@ == "delegate"@)
                    &&& (activity_kind(nodes, n) == Some(DefKind::WorkflowInlineActivity) <==> s@ == "inline"@)
                    &&& (activity_kind(nodes, n) == Some(DefKind::WorkflowSetStateActivity) <==> s@ == "set_state"@)
                    &&& (activity_kind(nodes, n) == Some(DefKind::WorkflowCallOperationActivity) <==> s@
                        == "call_operation"@)
                    &&& (activity_kind(nodes, n) is None <==> !(s@ == "delegate"@ || s@ == "inline"@ || s@
                        == "set_state"@ || s@ == "call_operation"@))
                },
                None => true,
            },
            None => true,
        },
{
    reveal_strlit("delegate");
    reveal_strlit("inline");
    reveal_strlit("set_state");
    reveal_strlit("call_operation");
    assert("delegate"@.len() == 8);
    assert("inline"@.len() == 6);
    assert("set_state"@.len() == 9);
    assert("call_operation"@.len() == 14);
}

/// A plain value of the wrong kind is refused with one error at its node
/// that names the kind it should have been: a string (also where null is
/// allowed), an integer or a bool.
pub proof fn law_refused_values(vk: ValueKind, old: Ast, new: Ast, n: int)
    requires
        value_outcome(vk, old, new, n, None),
    ensures
        vk == ValueKind::String ==> added_error(old, new, n, ErrorView::UnexpectedType("string"@)),
        vk == ValueKind::NullableString ==> added_error(old, new, n, ErrorView::UnexpectedType("string"@)),
        vk == ValueKind::Int ==> added_error(old, new, n, ErrorView::UnexpectedType("integer"@)),
        vk == ValueKind::Bool ==> added_error(old, new, n, ErrorView::UnexpectedType("bool"@)),
{
}

/// Each parse error is seen as the error of the same kind, with its text.
pub proof fn law_error_views(e: ParseError)
    ensures
        (e matches ParseError::UnexpectedType(t) ==> e@ == ErrorView::UnexpectedType(t@)),
        (e matches ParseError::MissingField(t) ==> e@ == ErrorView::MissingField(t@)),
        (e matches ParseError::UnknownField(t) ==> e@ == ErrorView::UnknownField(t@)),
        (e matches ParseError::Custom(t) ==> e@ == ErrorView::Custom(t@)),
{
}

} // verus!
