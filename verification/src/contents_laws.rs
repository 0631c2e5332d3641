//! What plans, questions and their parts hold is what their contents say, field by
//! field: nothing is left out of the contents or turned into something else.
use vstd::prelude::*;
use vstd::string::*;

use crate::ast::{KeyPart, KeyPartView};
use crate::dataflow::{
    Consistency, ConsistencyView, DataEncoding, EnvelopeView, ExternalSourceConnector, Region,
    RegionView, SinkConnectorBuilder, Source, SourceEnvelope,
};
use crate::describe::Description;
use crate::engine::{Params, Question, Step, StepView};
use crate::error::PlanError;
use crate::names::{DatabaseSpecifier, FullName, PartialName, SchemaSpecifier};
use crate::plan::{Plan, PlanView};
use crate::relation::RelationDesc;
use crate::value::{settings, Value, ValueView};

verus! {

/// Whether an optional text has these contents.
pub open spec fn same_text(text: Option<String>, contents: Option<Seq<char>>) -> bool {
    match (text, contents) {
        (Some(text), Some(contents)) => text@ == contents,
        (None, None) => true,
        _ => false,
    }
}

/// The contents of names are their components.
pub proof fn names_hold_their_components(
    full: FullName,
    partial: PartialName,
    database: DatabaseSpecifier,
    schema: SchemaSpecifier,
)
    ensures
        full@.database == full.database@,
        full@.schema == full.schema@,
        full@.item == full.item@,
        same_text(partial.database, partial@.database),
        same_text(partial.schema, partial@.schema),
        partial@.item == partial.item@,
        match database {
            DatabaseSpecifier::Ambient => database@ is None,
            DatabaseSpecifier::Name(name) => database@ == Some(name@),
        },
        schema@.name == schema.name@,
        schema@.id == schema.id,
{
}

/// The contents of a relation are its columns and its keys.
pub proof fn relations_hold_their_columns(desc: RelationDesc)
    ensures
        desc@.types == desc.typ.column_types@,
        desc@.names.len() == desc.names@.len(),
        forall|i: int|
            0 <= i < desc.names@.len() ==> same_text(
                #[trigger] desc.names@[i],
                desc@.names[i],
            ),
        desc@.keys.len() == desc.typ.keys@.len(),
        forall|i: int|
            0 <= i < desc.typ.keys@.len() ==> desc@.keys[i] == (#[trigger] desc.typ.keys@[i])@,
{
}

/// The contents of errors, values and key parts are theirs.
pub proof fn texts_hold_what_they_say(error: PlanError, value: Value, part: KeyPart, params: Params)
    ensures
        error@.kind == error.kind,
        error@.text == error.text@,
        match value {
            Value::Number(text) => value@ == ValueView::Number(text@),
            Value::String(text) => value@ == ValueView::String(text@),
            Value::Boolean(on) => value@ == ValueView::Boolean(on),
            Value::Other(text) => value@ == ValueView::Other(text@),
        },
        match part {
            KeyPart::Column(name) => part@ == KeyPartView::Column(name@),
            KeyPart::Number(digits) => part@ == KeyPartView::Number(digits@),
            KeyPart::Expr(expr) => part@ == KeyPartView::Expr(expr.sql@),
        },
        params@.datums == params.datums@,
        params@.types == params.types@,
{
}

/// The contents of a connector of a source are its settings.
pub proof fn connectors_hold_their_settings(connector: ExternalSourceConnector, region: Region)
    ensures
        match connector {
            ExternalSourceConnector::Kafka {
                addrs,
                topic,
                config_options,
                start_offsets,
                group_id_prefix,
                enable_persistence,
                persisted_files,
            } => {
                &&& connector@ is Kafka
                &&& connector@->addrs == addrs
                &&& connector@->topic == topic@
                &&& connector@->config_options.len() == config_options@.len()
                &&& forall|i: int|
                    0 <= i < config_options@.len() ==> #[trigger] connector@->config_options[i] == (
                        config_options@[i].0@,
                        config_options@[i].1@,
                    )
                &&& connector@->start_offsets == start_offsets@
                &&& same_text(group_id_prefix, connector@->group_id_prefix)
                &&& connector@->enable_persistence == enable_persistence
                &&& connector@->persisted_files is None <==> persisted_files is None
            },
            ExternalSourceConnector::Kinesis {
                stream_name,
                region,
                access_key_id,
                secret_access_key,
                token,
            } => {
                &&& connector@ is Kinesis
                &&& connector@->stream_name == stream_name@
                &&& connector@->region == region@
                &&& same_text(access_key_id, connector@->access_key_id)
                &&& same_text(secret_access_key, connector@->secret_access_key)
                &&& same_text(token, connector@->token)
            },
            ExternalSourceConnector::File { path, tail } => {
                &&& connector@ is File
                &&& connector@->File_path == path@
                &&& connector@->File_tail == tail
            },
            ExternalSourceConnector::AvroOcf { path, tail } => {
                &&& connector@ is AvroOcf
                &&& connector@->AvroOcf_path == path@
                &&& connector@->AvroOcf_tail == tail
            },
        },
        match region {
            Region::Aws(name) => region@ == RegionView::Aws(name@),
            Region::Custom { name, endpoint } => region@ is Custom && region@->name == name@
                && region@->endpoint == endpoint@,
        },
{
}

/// The contents of an encoding are its settings.
pub proof fn encodings_hold_their_settings(encoding: DataEncoding)
    ensures
        match encoding {
            DataEncoding::AvroOcf { reader_schema } => encoding@ is AvroOcf
                && encoding@->reader_schema == reader_schema@,
            DataEncoding::Avro { key_schema, value_schema, registry } => {
                &&& encoding@ is Avro
                &&& same_text(key_schema, encoding@->key_schema)
                &&& encoding@->value_schema == value_schema@
                &&& encoding@->registry == registry
            },
            DataEncoding::Protobuf { descriptors, message_name } => {
                &&& encoding@ is Protobuf
                &&& encoding@->descriptors == descriptors@
                &&& encoding@->message_name == message_name@
            },
            DataEncoding::Csv { header_row, n_cols, delimiter } => {
                &&& encoding@ is Csv
                &&& encoding@->header_row == header_row
                &&& encoding@->n_cols == n_cols
                &&& encoding@->delimiter == delimiter
            },
            DataEncoding::Regex { regex } => encoding@ is Regex && encoding@->regex == regex@,
            DataEncoding::Bytes => encoding@ is Bytes,
            DataEncoding::Text => encoding@ is Text,
        },
{
}

/// The contents of a source are those of its parts.
pub proof fn sources_hold_their_parts(source: Source)
    ensures
        source@.create_sql == source.create_sql@,
        source@.connector == source.connector@,
        source@.encoding == source.encoding@,
        match source.envelope {
            SourceEnvelope::NoEnvelope => source@.envelope is NoEnvelope,
            SourceEnvelope::Debezium(strategy) => source@.envelope == EnvelopeView::Debezium(
                strategy,
            ),
            SourceEnvelope::Upsert(encoding) => source@.envelope == EnvelopeView::Upsert(encoding@),
            SourceEnvelope::CdcV2 => source@.envelope is CdcV2,
        },
        match source.consistency {
            Consistency::RealTime => source@.consistency is RealTime,
            Consistency::BringYourOwn(topic) => source@.consistency
                == ConsistencyView::BringYourOwn(topic@),
        },
        source@.ts_frequency == source.ts_frequency,
        source@.desc == source.desc@,
{
}

/// The contents of a place that a sink writes to are its settings.
pub proof fn sink_places_hold_their_settings(builder: SinkConnectorBuilder)
    ensures
        match builder {
            SinkConnectorBuilder::Kafka {
                broker_addrs,
                schema_registry_url,
                value_schema,
                topic_prefix,
                topic_suffix,
                replication_factor,
                fuel,
                consistency_value_schema,
            } => {
                &&& builder@ is Kafka
                &&& builder@->broker_addrs == broker_addrs
                &&& builder@->schema_registry_url == schema_registry_url@
                &&& builder@->value_schema == value_schema@
                &&& builder@->topic_prefix == topic_prefix@
                &&& builder@->topic_suffix == topic_suffix@
                &&& builder@->replication_factor == replication_factor
                &&& builder@->fuel == fuel
                &&& same_text(consistency_value_schema, builder@->consistency_value_schema)
            },
            SinkConnectorBuilder::AvroOcf { path, file_name_suffix } => {
                &&& builder@ is AvroOcf
                &&& builder@->path == path@
                &&& builder@->file_name_suffix == file_name_suffix@
            },
        },
{
}

/// The contents of a plan that creates something are what it says of it.
pub proof fn creations_hold_what_they_say(plan: Plan)
    ensures
        match plan {
            Plan::CreateDatabase { name, if_not_exists } => {
                &&& plan@ is CreateDatabase
                &&& plan@->CreateDatabase_name == name@
                &&& plan@->CreateDatabase_if_not_exists == if_not_exists
            },
            Plan::CreateSchema { database_name, schema_name, if_not_exists } => {
                &&& plan@ is CreateSchema
                &&& plan@->CreateSchema_database_name == database_name@
                &&& plan@->CreateSchema_schema_name == schema_name@
                &&& plan@->CreateSchema_if_not_exists == if_not_exists
            },
            Plan::CreateSource { name, source, if_not_exists, materialized } => {
                &&& plan@ is CreateSource
                &&& plan@->CreateSource_name == name@
                &&& plan@->CreateSource_source == source@
                &&& plan@->CreateSource_if_not_exists == if_not_exists
                &&& plan@->CreateSource_materialized == materialized
            },
            Plan::CreateSink { name, sink, with_snapshot, as_of, if_not_exists } => {
                &&& plan@ is CreateSink
                &&& plan@->CreateSink_name == name@
                &&& plan@->CreateSink_create_sql == sink.create_sql@
                &&& plan@->CreateSink_from == sink.from
                &&& plan@->CreateSink_connector_builder == sink.connector_builder@
                &&& plan@->CreateSink_with_snapshot == with_snapshot
                &&& plan@->CreateSink_as_of == as_of
                &&& plan@->CreateSink_if_not_exists == if_not_exists
            },
            Plan::CreateTable { name, table, if_not_exists } => {
                &&& plan@ is CreateTable
                &&& plan@->CreateTable_name == name@
                &&& plan@->CreateTable_create_sql == table.create_sql@
                &&& plan@->CreateTable_desc == table.desc@
                &&& plan@->CreateTable_if_not_exists == if_not_exists
            },
            Plan::CreateView { name, view, replace, materialize, if_not_exists } => {
                &&& plan@ is CreateView
                &&& plan@->CreateView_name == name@
                &&& plan@->CreateView_create_sql == view.create_sql@
                &&& plan@->CreateView_expr == view.expr
                &&& plan@->CreateView_column_names.len() == view.column_names@.len()
                &&& forall|i: int|
                    0 <= i < view.column_names@.len() ==> same_text(
                        #[trigger] view.column_names@[i],
                        plan@->CreateView_column_names[i],
                    )
                &&& plan@->CreateView_temporary == view.temporary
                &&& plan@->CreateView_replace == replace
                &&& plan@->CreateView_materialize == materialize
                &&& plan@->CreateView_if_not_exists == if_not_exists
            },
            Plan::CreateIndex { name, index, if_not_exists } => {
                &&& plan@ is CreateIndex
                &&& plan@->CreateIndex_name == name@
                &&& plan@->CreateIndex_create_sql == index.create_sql@
                &&& plan@->CreateIndex_on == index.on
                &&& plan@->CreateIndex_keys == index.keys@
                &&& plan@->CreateIndex_if_not_exists == if_not_exists
            },
            _ => true,
        },
{
}

/// The contents of any other plan are what it says.
pub proof fn other_plans_hold_what_they_say(plan: Plan)
    ensures
        match plan {
            Plan::DropDatabase { name } => plan@ is DropDatabase && plan@->DropDatabase_name
                == name@,
            Plan::DropSchema { database_name, schema_name } => {
                &&& plan@ is DropSchema
                &&& plan@->DropSchema_database_name == database_name@
                &&& plan@->DropSchema_schema_name == schema_name@
            },
            Plan::DropItems { items, ty } => plan@ is DropItems && plan@->items == items@
                && plan@->ty == ty,
            Plan::AlterItemRename { id, to_name, object_type } => {
                &&& plan@ is AlterItemRename
                &&& plan@->AlterItemRename_id == id
                &&& plan@->AlterItemRename_to_name == to_name@
                &&& plan@->AlterItemRename_object_type == object_type
            },
            Plan::AlterIndexLogicalCompactionWindow(change) => plan@
                == PlanView::AlterIndexLogicalCompactionWindow(change),
            Plan::SetVariable { name, value } => plan@ is SetVariable && plan@->SetVariable_name
                == name@ && plan@->SetVariable_value == value@,
            Plan::ShowAllVariables => plan@ is ShowAllVariables,
            Plan::ShowVariable(name) => plan@ == PlanView::ShowVariable(name@),
            Plan::StartTransaction => plan@ is StartTransaction,
            Plan::CommitTransaction => plan@ is CommitTransaction,
            Plan::AbortTransaction => plan@ is AbortTransaction,
            Plan::Peek { source, when, finishing, materialize } => {
                &&& plan@ is Peek
                &&& plan@->Peek_source == source
                &&& plan@->Peek_when == when
                &&& plan@->Peek_finishing == finishing
                &&& plan@->Peek_materialize == materialize
            },
            Plan::Tail { id, ts, with_snapshot } => {
                &&& plan@ is Tail
                &&& plan@->Tail_id == id
                &&& plan@->Tail_ts == ts
                &&& plan@->Tail_with_snapshot == with_snapshot
            },
            Plan::SendRows(rows) => {
                &&& plan@ is SendRows
                &&& plan@->SendRows_0.len() == rows@.len()
                &&& forall|i: int|
                    0 <= i < rows@.len() ==> (#[trigger] plan@->SendRows_0[i]).len()
                        == rows@[i].values@.len()
                &&& forall|i: int, j: int|
                    0 <= i < rows@.len() && 0 <= j < rows@[i].values@.len()
                        ==> #[trigger] plan@->SendRows_0[i][j] == rows@[i].values@[j]@
            },
            Plan::ExplainPlan { raw_plan, decorrelated_plan, row_set_finishing, stage, options } => {
                &&& plan@ is ExplainPlan
                &&& plan@->ExplainPlan_raw_plan == raw_plan
                &&& plan@->ExplainPlan_decorrelated_plan == decorrelated_plan
                &&& plan@->ExplainPlan_row_set_finishing == row_set_finishing
                &&& plan@->ExplainPlan_stage == stage
                &&& plan@->ExplainPlan_options == options
            },
            Plan::Insert { id, values } => plan@ is Insert && plan@->Insert_id == id
                && plan@->Insert_values == values,
            _ => true,
        },
{
}

/// The contents of a question are what it asks of.
pub proof fn questions_hold_what_they_ask(question: Question)
    ensures
        match question {
            Question::CreateSql => question@ is CreateSql,
            Question::CreateIndexSql { name, key_parts } => {
                &&& question@ is CreateIndexSql
                &&& question@->CreateIndexSql_name == name@
                &&& question@->CreateIndexSql_key_parts.len() == key_parts@.len()
                &&& forall|i: int|
                    0 <= i < key_parts@.len() ==> question@->CreateIndexSql_key_parts[i] == (
                    #[trigger] key_parts@[i])@
            },
            Question::ParseSelect { sql } => question@ is ParseSelect && question@->ParseSelect_sql
                == sql@,
            Question::ParseView { sql } => question@ is ParseView && question@->ParseView_sql
                == sql@,
            Question::PlanQuery { query, lifetime, pcx, param_types } => {
                &&& question@ is PlanQuery
                &&& question@->query == query.sql@
                &&& question@->lifetime == lifetime
                &&& question@->PlanQuery_pcx == pcx
                &&& question@->PlanQuery_param_types == param_types@
            },
            Question::PlanInsert { table_name, columns, source, pcx, param_types } => {
                &&& question@ is PlanInsert
                &&& question@->table_name == table_name.0@
                &&& question@->columns == columns@
                &&& question@->source == source@
                &&& question@->PlanInsert_pcx == pcx
                &&& question@->PlanInsert_param_types == param_types@
            },
            Question::PlanIndexKeys { desc, key_parts } => {
                &&& question@ is PlanIndexKeys
                &&& question@->PlanIndexKeys_desc == desc@
                &&& question@->PlanIndexKeys_key_parts.len() == key_parts@.len()
                &&& forall|i: int|
                    0 <= i < key_parts@.len() ==> question@->PlanIndexKeys_key_parts[i] == (
                    #[trigger] key_parts@[i])@
            },
            Question::Bind { expr, params } => question@ is Bind && question@->Bind_expr == expr
                && question@->params == params@,
            Question::Finish { expr, finishing } => question@ is Finish && question@->Finish_expr
                == expr && question@->Finish_finishing == finishing,
            Question::IsTrivial { finishing, arity } => question@ is IsTrivial
                && question@->IsTrivial_finishing == finishing && question@->arity == arity,
            Question::Decorrelate { expr } => question@ is Decorrelate
                && question@->Decorrelate_expr == expr,
            Question::EvalAsOf { expr } => question@ is EvalAsOf && question@->EvalAsOf_expr
                == expr.sql@,
            Question::ColumnType { column, data_type } => question@ is ColumnType
                && question@->column == column && question@->data_type == data_type@,
            Question::KafkaAddrs { broker } => question@ is KafkaAddrs && question@->broker
                == broker@,
            Question::SinkSchema { desc, include_consistency } => question@ is SinkSchema
                && question@->SinkSchema_desc == desc@ && question@->include_consistency
                == include_consistency,
            Question::TransactionSchema => question@ is TransactionSchema,
            Question::IsDirectory { path } => question@ is IsDirectory && question@->path == path@,
            Question::KafkaConfig { options } => question@ is KafkaConfig
                && question@->KafkaConfig_options == settings(options@),
            Question::Registry { role, url, kafka_config, options } => {
                &&& question@ is Registry
                &&& question@->Registry_role == role
                &&& question@->url == url@
                &&& question@->Registry_options == settings(options@)
                &&& question@->kafka_config.len() == kafka_config@.len()
                &&& forall|i: int|
                    0 <= i < kafka_config@.len() ==> #[trigger] question@->kafka_config[i] == (
                        kafka_config@[i].0@,
                        kafka_config@[i].1@,
                    )
            },
            Question::Descriptors { role, text } => question@ is Descriptors
                && question@->Descriptors_role == role && question@->text == text@,
            Question::SourceDesc { encoding, envelope } => question@ is SourceDesc
                && question@->encoding == encoding@ && question@->envelope == envelope@,
            Question::MetadataColumns { connector } => question@ is MetadataColumns
                && question@->connector == connector@,
        },
{
}

/// The contents of where planning or describing stands are those of the question,
/// of what was reached, or of the error.
pub proof fn steps_hold_what_was_reached(step: Step<Plan>, described: Step<Description>)
    ensures
        match step {
            Step::Ask(question) => step@ == StepView::<PlanView>::Ask(question@),
            Step::Done(Ok(plan)) => step@ == StepView::<PlanView>::Done(Ok(plan@)),
            Step::Done(Err(e)) => step@ == StepView::<PlanView>::Done(Err(e@)),
        },
        match described {
            Step::Ask(question) => described@ is Ask && described@->Ask_0 == question@,
            Step::Done(Ok(found)) => described@ matches StepView::Done(Ok(d)) && d.param_types
                == found.param_types@ && match found.desc {
                Some(desc) => d.desc == Some(desc@),
                None => d.desc is None,
            },
            Step::Done(Err(e)) => described@ matches StepView::Done(Err(error)) && error == e@,
        },
{
}

} // verus!
