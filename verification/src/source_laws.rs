//! What holds of planned sources, in terms of the statements that create them.
use vstd::prelude::*;
use vstd::string::*;

use crate::ast::{AvroSchema, Connector, CreateSourceStatement, Envelope, Format, Schema};
use crate::catalog::CatalogModel;
use crate::columns::column_names;
use crate::dataflow::{
    CcsrConfig, ConnectorView, ConsistencyView, DebeziumDeduplicationStrategy, EncodingView,
    RegionView,
};
use crate::engine::{QuestionView, Replies, Role, StepView};
use crate::error::PlanError;
use crate::external::{arn_of, regex_refusal, region_of, url_of};
use crate::laws::{is_placed, says_switch, says_text};
use crate::number::{
    read_signed, read_unsigned, signed_numbers_are_in_range, unsigned_numbers_are_in_range,
    IntError,
};
use crate::source::{
    create_source, encoding_of, format_is_pure, is_pure, kinesis_stream, with_columns,
};
use crate::relation::{ColumnType, RelationView};
use crate::value::{settings, ValueView};

verus! {

/// A planned source is the one that the statement creates: it stands where the
/// statement puts it, it is materialized and may be there already exactly where
/// the statement says so, and the stored statement is the one that was given.
pub proof fn sources_are_as_stated(
    catalog: CatalogModel,
    stmt: CreateSourceStatement,
    replies: Replies,
)
    requires
        is_pure(stmt),
    ensures
        create_source(catalog, stmt, replies) matches StepView::Done(Ok(plan)) ==> {
            &&& plan is CreateSource
            &&& is_placed(catalog, plan->CreateSource_name, stmt.name)
            &&& plan->CreateSource_if_not_exists == stmt.if_not_exists
            &&& plan->CreateSource_materialized == stmt.materialized
            &&& replies.create_sql matches Some(Ok(sql)) && plan->CreateSource_source.create_sql
                == sql@
        },
{
}

/// A source of comma-separated values has a header row exactly where its format
/// says so, the delimiter that the format says, which is an ASCII character, and
/// as many columns as the statement names, or else as the format says.
pub proof fn csv_sources_are_as_stated(
    catalog: CatalogModel,
    stmt: CreateSourceStatement,
    replies: Replies,
)
    requires
        is_pure(stmt),
        stmt.connector !is AvroOcf,
        stmt.format matches Some(format) && format is Csv,
    ensures
        create_source(catalog, stmt, replies) matches StepView::Done(Ok(plan)) ==> {
            let format = stmt.format->0;
            let encoding = plan->CreateSource_source.encoding;
            &&& plan is CreateSource
            &&& encoding is Csv
            &&& encoding->Csv_header_row == format->header_row
            &&& encoding->Csv_delimiter as u32 == format->delimiter as u32
            &&& (format->delimiter as u32) < 128
            &&& stmt.col_names@.len() > 0 ==> encoding->Csv_n_cols == stmt.col_names@.len()
            &&& stmt.col_names@.len() == 0 ==> format->n_cols == Some(encoding->Csv_n_cols)
        },
{
    let _ = stmt.col_names.len();
}

/// The records of a source are decoded as its format says. Under the upsert
/// envelope the key schema of a registry is not kept with them.
pub proof fn sources_are_encoded_as_stated(
    catalog: CatalogModel,
    stmt: CreateSourceStatement,
    replies: Replies,
)
    requires
        is_pure(stmt),
        stmt.connector !is AvroOcf,
    ensures
        create_source(catalog, stmt, replies) matches StepView::Done(Ok(plan)) ==> {
            let encoding = plan->CreateSource_source.encoding;
            &&& plan is CreateSource
            &&& stmt.format matches Some(format)
            &&& match format {
                Format::Bytes => encoding is Bytes,
                Format::Text => encoding is Text,
                Format::Regex(pattern) => encoding is Regex && encoding->regex == pattern@
                    && regex_refusal(pattern@) is None,
                Format::Csv { .. } => encoding is Csv,
                Format::Json => false,
                Format::Protobuf { message_name, schema } => {
                    &&& schema is Inline
                    &&& encoding is Protobuf
                    &&& encoding->message_name == message_name@
                    &&& replies.value_descriptors matches Some(Ok(bytes)) && encoding->descriptors
                        == bytes@
                },
                Format::Avro(AvroSchema::Schema(Schema::Inline(schema))) => {
                    &&& encoding is Avro
                    &&& encoding->key_schema is None
                    &&& encoding->value_schema == schema@
                    &&& encoding->registry is None
                },
                Format::Avro(AvroSchema::CsrUrl { url, seed: Some(seed), .. }) => {
                    &&& encoding is Avro
                    &&& encoding->value_schema == seed.value_schema@
                    &&& replies.value_registry matches Some(Ok(registry)) && encoding->registry
                        == Some(registry)
                    &&& url_of(url@) is Ok
                    &&& match encoding->key_schema {
                        Some(key_schema) => stmt.envelope !is Upsert && (
                        seed.key_schema matches Some(given) && key_schema == given@),
                        None => stmt.envelope is Upsert || seed.key_schema is None,
                    }
                },
                _ => false,
            }
        },
{
}

/// An Avro container file is read by the reader schema among the options, and has no format.
pub proof fn container_files_are_encoded_as_stated(
    catalog: CatalogModel,
    stmt: CreateSourceStatement,
    replies: Replies,
)
    requires
        is_pure(stmt),
        stmt.connector is AvroOcf,
    ensures
        create_source(catalog, stmt, replies) matches StepView::Done(Ok(plan)) ==> {
            let encoding = plan->CreateSource_source.encoding;
            &&& plan is CreateSource
            &&& stmt.format is None
            &&& encoding is AvroOcf
            &&& settings(stmt.with_options@)["reader_schema"@] == ValueView::String(
                encoding->reader_schema,
            )
        },
{
}

/// A Kafka source reads the topic of the statement from the brokers that were
/// found for it, with the configuration that was found in its options. It starts
/// at the offset that the options say, or at zero, and keeps its records only
/// where they say so.
pub proof fn kafka_sources_are_as_stated(
    catalog: CatalogModel,
    stmt: CreateSourceStatement,
    replies: Replies,
)
    requires
        is_pure(stmt),
        stmt.connector is Kafka,
    ensures
        create_source(catalog, stmt, replies) matches StepView::Done(Ok(plan)) ==> {
            let options = settings(stmt.with_options@);
            let connector = plan->CreateSource_source.connector;
            &&& plan is CreateSource
            &&& connector is Kafka
            &&& replies.kafka_addrs matches Some(Ok(addrs)) && connector->addrs == addrs
            &&& connector->topic == stmt.connector->topic@
            &&& replies.kafka_config matches Some(Ok(config)) && {
                &&& connector->config_options.len() == config@.len()
                &&& forall|i: int|
                    0 <= i < config@.len() ==> #[trigger] connector->config_options[i] == (
                        config@[i].0@,
                        config@[i].1@,
                    )
            }
            &&& connector->start_offsets.len() == 1
            &&& connector->start_offsets[0].0 == 0
            &&& if options.contains_key("start_offset"@) {
                &&& options["start_offset"@] is Number
                &&& read_signed(options["start_offset"@]->Number_0) == Ok::<int, IntError>(
                    connector->start_offsets[0].1 as int,
                )
            } else {
                connector->start_offsets[0].1 == 0
            }
            &&& says_text(options, "group_id_prefix"@, connector->group_id_prefix)
            &&& says_switch(options, "persistence"@, connector->enable_persistence)
            &&& connector->persisted_files is None
        },
{
    let options = settings(stmt.with_options@);
    if let ValueView::Number(digits) = options["start_offset"@] {
        signed_numbers_are_in_range(digits);
    }
}

/// A Kinesis source reads the stream whose path the resource name holds, in the
/// region that the resource name holds: a known one, or else one of that name at
/// the endpoint that the options say. It does so with the credentials of the
/// options.
pub proof fn kinesis_sources_are_as_stated(
    catalog: CatalogModel,
    stmt: CreateSourceStatement,
    replies: Replies,
)
    requires
        is_pure(stmt),
        stmt.connector is Kinesis,
    ensures
        create_source(catalog, stmt, replies) matches StepView::Done(Ok(plan)) ==> {
            let options = settings(stmt.with_options@);
            let connector = plan->CreateSource_source.connector;
            &&& plan is CreateSource
            &&& connector is Kinesis
            &&& arn_of(stmt.connector->arn@) matches Ok((Some(region), Some(path), resource)) && {
                &&& path == "stream/"@ + connector->stream_name
                &&& match connector->region {
                    RegionView::Aws(known) => region_of(region) == Ok::<Seq<char>, Seq<char>>(
                        known,
                    ),
                    RegionView::Custom { name, endpoint } => region_of(region) is Err && name
                        == region && says_text(options, "endpoint"@, Some(endpoint)),
                }
            }
            &&& says_text(options, "access_key_id"@, connector->access_key_id)
            &&& says_text(options, "secret_access_key"@, connector->secret_access_key)
            &&& says_text(options, "token"@, connector->token)
        },
{
    if let Ok((_, Some(path), _)) = arn_of(stmt.connector->arn@) {
        let prefix = "stream/"@;
        assert(prefix.is_prefix_of(path) ==> path =~= prefix + path.skip(prefix.len() as int));
    }
}

/// A source that is a file, or an Avro container file, reads the path of the
/// statement, and goes on at its end only where the options say so.
pub proof fn file_sources_are_as_stated(
    catalog: CatalogModel,
    stmt: CreateSourceStatement,
    replies: Replies,
)
    requires
        is_pure(stmt),
        stmt.connector is File || stmt.connector is AvroOcf,
    ensures
        create_source(catalog, stmt, replies) matches StepView::Done(Ok(plan)) ==> {
            let options = settings(stmt.with_options@);
            &&& plan is CreateSource
            &&& match (plan->CreateSource_source.connector, stmt.connector) {
                (ConnectorView::File { path, tail }, Connector::File { path: stated }) => path
                    == stated@ && says_switch(options, "tail"@, tail),
                (ConnectorView::AvroOcf { path, tail }, Connector::AvroOcf { path: stated }) => path
                    == stated@ && says_switch(options, "tail"@, tail),
                _ => false,
            }
        },
{
}

/// The timestamps of a source come from the topic that the options say, or else
/// from real time, and are given out as often as the options say, or else every
/// second. A Kinesis source leaves those options alone.
pub proof fn source_timestamps_are_as_stated(
    catalog: CatalogModel,
    stmt: CreateSourceStatement,
    replies: Replies,
)
    requires
        is_pure(stmt),
    ensures
        create_source(catalog, stmt, replies) matches StepView::Done(Ok(plan)) ==> {
            let options = settings(stmt.with_options@);
            let consistency = plan->CreateSource_source.consistency;
            let ts_frequency = plan->CreateSource_source.ts_frequency;
            let topic = match consistency {
                ConsistencyView::RealTime => None,
                ConsistencyView::BringYourOwn(topic) => Some(topic),
            };
            &&& plan is CreateSource
            &&& if stmt.connector is Kinesis {
                topic is None
            } else {
                says_text(options, "consistency"@, topic)
            }
            &&& if stmt.connector is Kinesis || !options.contains_key("timestamp_frequency_ms"@) {
                ts_frequency.secs == 1 && ts_frequency.nanos == 0
            } else {
                &&& options["timestamp_frequency_ms"@] is Number
                &&& read_unsigned(
                    options["timestamp_frequency_ms"@]->Number_0,
                    u64::MAX as nat,
                ) matches Ok(ms) && {
                    &&& ms * 1_000_000 == ts_frequency.secs * 1_000_000_000 + ts_frequency.nanos
                    &&& ts_frequency.nanos < 1_000_000_000
                }
            }
        },
{
    let options = settings(stmt.with_options@);
    if let ValueView::Number(digits) = options["timestamp_frequency_ms"@] {
        unsigned_numbers_are_in_range(digits, u64::MAX as nat);
    }
}

/// What the keys of an upsert source are decoded by, where this format says so:
/// for Avro the key schema of a registry, or else the value schema.
pub open spec fn decodes_keys(
    key: EncodingView,
    format: Format,
    registry: Option<Result<CcsrConfig, PlanError>>,
) -> bool {
    match format {
        Format::Bytes => key is Bytes,
        Format::Text => key is Text,
        Format::Avro(AvroSchema::Schema(Schema::Inline(schema))) => {
            &&& key is Avro
            &&& key->value_schema == schema@
            &&& key->registry is None
        },
        Format::Avro(AvroSchema::CsrUrl { seed: Some(seed), .. }) => {
            &&& key is Avro
            &&& key->value_schema == match seed.key_schema {
                Some(key_schema) => key_schema@,
                None => seed.value_schema@,
            }
            &&& registry matches Some(Ok(registry)) && key->registry == Some(registry)
        },
        _ => false,
    }
}

/// The envelope of a source is the one that the statement says. Debezium's tells
/// records apart as the options say, by their order by default. The keys of an
/// upsert source are decoded by the format that the envelope gives for them, or
/// else by the format of the source.
pub proof fn source_envelopes_are_as_stated(
    catalog: CatalogModel,
    stmt: CreateSourceStatement,
    replies: Replies,
)
    requires
        is_pure(stmt),
    ensures
        create_source(catalog, stmt, replies) matches StepView::Done(Ok(plan)) ==> {
            let options = settings(stmt.with_options@);
            let envelope = plan->CreateSource_source.envelope;
            &&& plan is CreateSource
            &&& match stmt.envelope {
                Envelope::NoEnvelope => envelope is NoEnvelope,
                Envelope::CdcV2 => envelope is CdcV2,
                Envelope::Debezium => {
                    &&& envelope is Debezium
                    &&& match envelope->Debezium_0 {
                        DebeziumDeduplicationStrategy::Full => says_text(
                            options,
                            "deduplication"@,
                            Some("full"@),
                        ),
                        DebeziumDeduplicationStrategy::Ordered => says_text(
                            options,
                            "deduplication"@,
                            Some("ordered"@),
                        ) || says_text(options, "deduplication"@, None),
                    }
                },
                Envelope::Upsert(Some(key_format)) => {
                    &&& envelope is Upsert
                    &&& stmt.connector is Kafka
                    &&& decodes_keys(envelope->Upsert_0, key_format, replies.key_registry)
                },
                Envelope::Upsert(None) => {
                    &&& envelope is Upsert
                    &&& stmt.connector is Kafka
                    &&& stmt.format matches Some(format)
                    &&& decodes_keys(envelope->Upsert_0, format, replies.value_registry)
                },
            }
        },
{
}

/// The shape of a source is the one that was found for its encoding and its
/// envelope. It has the names that the statement gives, if any; its keys, unless
/// the options have them ignored; and after its own columns those that the
/// connector adds, unless it is Avro, Protobuf or Debezium's.
pub proof fn source_shapes_are_as_stated(
    catalog: CatalogModel,
    stmt: CreateSourceStatement,
    replies: Replies,
)
    requires
        is_pure(stmt),
    ensures
        create_source(catalog, stmt, replies) matches StepView::Done(Ok(plan)) ==> {
            let options = settings(stmt.with_options@);
            let source = plan->CreateSource_source;
            let bare = source.encoding is Avro || source.encoding is Protobuf || source.envelope is Debezium;
            &&& plan is CreateSource
            &&& replies.source_desc matches Some(Ok(found))
            &&& {
                let n = found@.types.len() as int;
                let m = found@.names.len() as int;
                let named = stmt.col_names@.len() as int;
                &&& says_switch(options, "ignore_source_keys"@, true) ==> source.desc.keys.len() == 0
                &&& says_switch(options, "ignore_source_keys"@, false) ==> source.desc.keys
                    == found@.keys
                &&& says_switch(options, "ignore_source_keys"@, true) || says_switch(
                    options,
                    "ignore_source_keys"@,
                    false,
                )
                &&& source.desc.types.len() >= n
                &&& source.desc.types.take(n) == found@.types
                &&& named == 0 ==> source.desc.names.len() >= m && source.desc.names.take(m)
                    == found@.names
                &&& named > 0 ==> {
                    &&& named == n
                    &&& source.desc.names.len() >= n
                    &&& forall|i: int|
                        0 <= i < n ==> #[trigger] source.desc.names[i] == Some(
                            stmt.col_names@[i].value@,
                        )
                }
                &&& bare ==> source.desc.types.len() == n
                &&& !bare ==> (replies.metadata_columns matches Some(added) && {
                    &&& source.desc.types.len() == n + added@.len()
                    &&& forall|j: int|
                        0 <= j < added@.len() ==> #[trigger] source.desc.types[n + j] == added@[j].1
                    &&& forall|j: int|
                        0 <= j < added@.len() ==> #[trigger] source.desc.names[source.desc.names.len()
                            - added@.len() + j] == Some(added@[j].0@)
                    &&& source.desc.names.len() == added@.len() + if named > 0 {
                        named
                    } else {
                        m
                    }
                })
            }
        },
{
    if let Some(Ok(found)) = replies.source_desc {
        let found = found@;
        let names = column_names(stmt.col_names@);
        let n = found.types.len() as int;
        let m = found.names.len() as int;
        assert(found.types.take(n) =~= found.types);
        assert(found.names.take(m) =~= found.names);
        if let Some(columns) = replies.metadata_columns {
            added_columns_are_these(found, columns@);
            added_columns_are_these(found.without_keys(), columns@);
            added_columns_are_these(found.with_names(names), columns@);
            added_columns_are_these(found.without_keys().with_names(names), columns@);
        }
    }
}

/// Columns that are added to a relation come after its own, in their order, and
/// change nothing else.
pub proof fn added_columns_are_these(desc: RelationView, columns: Seq<(String, ColumnType)>)
    ensures
        ({
            let all = with_columns(desc, columns);
            let n = desc.types.len() as int;
            let m = desc.names.len() as int;
            &&& all.keys == desc.keys
            &&& all.types.len() == n + columns.len()
            &&& all.names.len() == m + columns.len()
            &&& all.types.take(n) == desc.types
            &&& all.names.take(m) == desc.names
            &&& forall|j: int| 0 <= j < m ==> #[trigger] all.names[j] == desc.names[j]
            &&& forall|j: int| 0 <= j < columns.len() ==> #[trigger] all.types[n + j] == columns[j].1
            &&& forall|j: int|
                0 <= j < columns.len() ==> #[trigger] all.names[m + j] == Some(columns[j].0@)
        }),
    decreases columns.len(),
{
    let all = with_columns(desc, columns);
    let n = desc.types.len() as int;
    let m = desc.names.len() as int;
    if columns.len() > 0 {
        added_columns_are_these(desc, columns.drop_last());
        let before = with_columns(desc, columns.drop_last());
        assert forall|j: int| 0 <= j < columns.len() implies #[trigger] all.types[n + j]
            == columns[j].1 by {
            if j < columns.len() - 1 {
                assert(before.types[n + j] == columns.drop_last()[j].1);
            }
        }
        assert forall|j: int| 0 <= j < columns.len() implies #[trigger] all.names[m + j] == Some(
            columns[j].0@,
        ) by {
            if j < columns.len() - 1 {
                assert(before.names[m + j] == Some(columns.drop_last()[j].0@));
            }
        }
        assert forall|j: int| 0 <= j < m implies #[trigger] all.names[j] == desc.names[j] by {
            assert(before.names[j] == desc.names[j]);
        }
        assert(all.types.take(n) =~= before.types.take(n));
    }
    assert(all.types.take(n) =~= desc.types);
    assert(all.names.take(m) =~= desc.names);
}

/// The format that a role takes its data by.
pub open spec fn format_of_role(stmt: CreateSourceStatement, role: Role) -> Option<Format> {
    match (role, stmt.envelope) {
        (Role::Value, _) => stmt.format,
        (Role::Key, Envelope::Upsert(key_format)) => key_format,
        (Role::Key, _) => None,
    }
}

/// What planning a source asks is about that source: about its options, its
/// brokers, and the registry and the schema text of its formats. What a connector
/// adds is asked for only where it is added.
pub proof fn source_questions_are_about_the_source(
    catalog: CatalogModel,
    stmt: CreateSourceStatement,
    replies: Replies,
)
    requires
        is_pure(stmt),
    ensures
        create_source(catalog, stmt, replies) matches StepView::Ask(question) ==> match question {
            QuestionView::CreateSql => true,
            QuestionView::KafkaConfig { options } => {
                &&& options == settings(stmt.with_options@)
                &&& stmt.connector is Kafka || (stmt.format matches Some(
                    Format::Avro(AvroSchema::CsrUrl { .. }),
                ))
            },
            QuestionView::KafkaAddrs { broker } => stmt.connector is Kafka && broker
                == stmt.connector->broker@,
            QuestionView::Registry { role, url, kafka_config, options } => {
                &&& format_of_role(stmt, role) matches Some(
                    Format::Avro(AvroSchema::CsrUrl { url: stated, with_options, .. }),
                )
                &&& url_of(stated@) == Ok::<Seq<char>, Seq<char>>(url)
                &&& options == settings(with_options@)
                &&& replies.kafka_config matches Some(Ok(config))
                &&& kafka_config.len() == config@.len()
                &&& forall|i: int|
                    0 <= i < config@.len() ==> #[trigger] kafka_config[i] == (
                        config@[i].0@,
                        config@[i].1@,
                    )
            },
            QuestionView::Descriptors { role, text } => {
                &&& format_of_role(stmt, role) matches Some(
                    Format::Protobuf { schema: Schema::Inline(stated), .. },
                )
                &&& text == stated@
            },
            QuestionView::SourceDesc { .. } => true,
            QuestionView::MetadataColumns { .. } => stmt.envelope !is Debezium && !(
            stmt.format matches Some(Format::Avro(_))) && !(stmt.format matches Some(
                Format::Protobuf { .. },
            )),
            _ => false,
        },
{
}

/// The shape of a source is asked for by the encoding and the envelope that it
/// is planned with, and the added columns by its connector.
pub proof fn source_questions_are_about_the_plan(
    catalog: CatalogModel,
    stmt: CreateSourceStatement,
    replies: Replies,
    later: Replies,
)
    requires
        is_pure(stmt),
        later.extends(replies),
    ensures
        create_source(catalog, stmt, replies) matches StepView::Ask(question) ==> (create_source(
            catalog,
            stmt,
            later,
        ) matches StepView::Done(Ok(plan)) ==> {
            let source = plan->CreateSource_source;
            &&& plan is CreateSource
            &&& question matches QuestionView::SourceDesc { encoding, envelope } ==> encoding
                == source.encoding && envelope == source.envelope
            &&& question matches QuestionView::MetadataColumns { connector } ==> connector
                == source.connector
        }),
{
}

/// Whether an option is left out, or a switch.
pub open spec fn may_be_switch(options: Map<Seq<char>, ValueView>, name: Seq<char>) -> bool {
    options.contains_key(name) ==> options[name] is Boolean
}

/// Whether an option is left out, or a text.
pub open spec fn may_be_text(options: Map<Seq<char>, ValueView>, name: Seq<char>) -> bool {
    options.contains_key(name) ==> options[name] is String
}

/// Whether the options on timestamps of a source make sense.
pub open spec fn timestamps_make_sense(options: Map<Seq<char>, ValueView>) -> bool {
    &&& may_be_text(options, "consistency"@)
    &&& options.contains_key("timestamp_frequency_ms"@) ==> {
        &&& options["timestamp_frequency_ms"@] is Number
        &&& read_unsigned(options["timestamp_frequency_ms"@]->Number_0, u64::MAX as nat) is Ok
    }
}

/// Whether a source can read from where its statement says, with its options.
pub open spec fn connector_makes_sense(
    connector: Connector,
    options: Map<Seq<char>, ValueView>,
) -> bool {
    match connector {
        Connector::Kafka { .. } => {
            &&& timestamps_make_sense(options)
            &&& may_be_text(options, "group_id_prefix"@)
            &&& may_be_switch(options, "persistence"@)
            &&& options.contains_key("start_offset"@) ==> {
                &&& options["start_offset"@] is Number
                &&& read_signed(options["start_offset"@]->Number_0) matches Ok(n)
                &&& n >= 0
                &&& n > 0 ==> !options.contains_key("consistency"@)
            }
            &&& says_switch(options, "persistence"@, true) ==> !options.contains_key(
                "consistency"@,
            )
        },
        Connector::Kinesis { arn } => {
            &&& may_be_text(options, "access_key_id"@)
            &&& may_be_text(options, "secret_access_key"@)
            &&& may_be_text(options, "token"@)
            &&& arn_of(arn@) matches Ok((Some(region), Some(path), _))
            &&& exists|name: Seq<char>| path == #[trigger] ("stream/"@ + name)
            &&& region_of(region) is Ok || (options.contains_key("endpoint"@)
                && options["endpoint"@] is String)
        },
        Connector::File { .. } => may_be_switch(options, "tail"@) && timestamps_make_sense(options),
        Connector::AvroOcf { .. } => {
            &&& may_be_switch(options, "tail"@)
            &&& timestamps_make_sense(options)
            &&& options["reader_schema"@] is String
        },
    }
}

/// Whether data can be decoded by a format, in a source with this many named columns.
pub open spec fn format_makes_sense(format: Option<Format>, named: nat) -> bool {
    match format {
        Some(Format::Csv { n_cols, delimiter, .. }) => (n_cols is Some || named > 0) && (
        delimiter as u32) < 128,
        Some(Format::Regex(pattern)) => regex_refusal(pattern@) is None,
        Some(Format::Avro(AvroSchema::CsrUrl { url, .. })) => url_of(url@) is Ok,
        Some(Format::Json) => false,
        Some(_) => true,
        None => false,
    }
}

/// Whether records and keys can be decoded by a format under the upsert envelope.
pub open spec fn may_be_upserted(format: Option<Format>) -> bool {
    match format {
        Some(Format::Bytes) | Some(Format::Text) | Some(Format::Avro(_)) => true,
        _ => false,
    }
}

/// Whether the envelope of a source goes with the rest of it.
pub open spec fn envelope_makes_sense(catalog: CatalogModel, stmt: CreateSourceStatement) -> bool {
    let options = settings(stmt.with_options@);
    match stmt.envelope {
        Envelope::NoEnvelope => true,
        Envelope::Debezium => options.contains_key("deduplication"@) ==> (options["deduplication"@]
            == ValueView::String("full"@) || options["deduplication"@] == ValueView::String(
            "ordered"@,
        )),
        Envelope::Upsert(key_format) => {
            &&& stmt.connector is Kafka
            &&& may_be_upserted(stmt.format)
            &&& key_format is Some ==> {
                &&& may_be_upserted(key_format)
                &&& format_makes_sense(key_format, 0)
                &&& key_format->0 is Avro ==> stmt.format->0 is Avro
            }
        },
        Envelope::CdcV2 => {
            &&& catalog.experimental
            &&& stmt.connector !is AvroOcf
            &&& stmt.format matches Some(format)
            &&& format is Avro
        },
    }
}

/// Once everything that planning may ask has a good answer, a source is planned
/// exactly where its connector, its format and its envelope make sense, its name
/// has one to three components, and the statement names no columns or all of
/// them.
pub proof fn sensible_sources_are_planned(
    catalog: CatalogModel,
    stmt: CreateSourceStatement,
    replies: Replies,
)
    requires
        is_pure(stmt),
        replies.create_sql matches Some(Ok(_)),
        replies.kafka_config matches Some(Ok(_)),
        replies.kafka_addrs matches Some(Ok(_)),
        replies.value_registry matches Some(Ok(_)),
        replies.key_registry matches Some(Ok(_)),
        replies.value_descriptors matches Some(Ok(_)),
        replies.key_descriptors matches Some(Ok(_)),
        replies.source_desc matches Some(Ok(_)),
        replies.metadata_columns is Some,
    ensures
        create_source(catalog, stmt, replies) matches StepView::Done(Ok(_)) <==> {
            let options = settings(stmt.with_options@);
            &&& connector_makes_sense(stmt.connector, options)
            &&& stmt.connector is AvroOcf ==> stmt.format is None
            &&& stmt.connector !is AvroOcf ==> format_makes_sense(
                stmt.format,
                stmt.col_names@.len(),
            )
            &&& envelope_makes_sense(catalog, stmt)
            &&& may_be_switch(options, "ignore_source_keys"@)
            &&& 1 <= stmt.name.0@.len() <= 3
            &&& stmt.col_names@.len() == 0 || stmt.col_names@.len()
                == replies.source_desc->0->Ok_0@.types.len()
        },
{
    if let Connector::Kinesis { arn } = stmt.connector {
        if let Ok((_, Some(path), _)) = arn_of(arn@) {
            let prefix = "stream/"@;
            let rest = path.skip(prefix.len() as int);
            assert(prefix.is_prefix_of(path) ==> path =~= prefix + rest);
            assert forall|name: Seq<char>| path == #[trigger] (prefix + name) implies prefix.is_prefix_of(path) by {
                assert(prefix =~= path.take(prefix.len() as int));
            }
        }
    }
}

/// A format stands for the same encoding whether it is that of records or that of
/// keys, but for the answers that are its own.
pub proof fn formats_stand_for_encodings(
    role: Role,
    format: Format,
    options: Map<Seq<char>, ValueView>,
    named: nat,
    replies: Replies,
)
    requires
        format_is_pure(format),
    ensures
        ({
            let (registry, descriptors) = match role {
                Role::Value => (replies.value_registry, replies.value_descriptors),
                Role::Key => (replies.key_registry, replies.key_descriptors),
            };
            encoding_of(role, Some(format), options, named, replies) matches Ok(encoding)
                ==> match format {
                Format::Bytes => encoding is Bytes,
                Format::Text => encoding is Text,
                Format::Json => false,
                Format::Regex(pattern) => encoding is Regex && encoding->regex == pattern@
                    && regex_refusal(pattern@) is None,
                Format::Csv { header_row, n_cols, delimiter } => {
                    &&& encoding is Csv
                    &&& encoding->header_row == header_row
                    &&& encoding->delimiter as u32 == delimiter as u32
                    &&& (delimiter as u32) < 128
                    &&& named == 0 ==> n_cols == Some(encoding->n_cols)
                    &&& 0 < named <= usize::MAX ==> encoding->n_cols == named
                },
                Format::Protobuf { message_name, .. } => {
                    &&& encoding is Protobuf
                    &&& encoding->message_name == message_name@
                    &&& descriptors matches Some(Ok(bytes)) && encoding->descriptors == bytes@
                },
                Format::Avro(AvroSchema::Schema(schema)) => {
                    &&& schema is Inline
                    &&& encoding is Avro
                    &&& encoding->key_schema is None
                    &&& encoding->value_schema == schema->Inline_0@
                    &&& encoding->registry is None
                },
                Format::Avro(AvroSchema::CsrUrl { seed, .. }) => {
                    &&& seed matches Some(seed)
                    &&& encoding is Avro
                    &&& encoding->value_schema == seed.value_schema@
                    &&& match (encoding->key_schema, seed.key_schema) {
                        (Some(key_schema), Some(given)) => key_schema == given@,
                        (None, None) => true,
                        _ => false,
                    }
                    &&& registry matches Some(Ok(registry)) && encoding->registry == Some(registry)
                },
            }
        }),
{
}

/// A stream of Kinesis takes a name, and a region that something is made of.
pub proof fn streams_take_a_region(
    name: Option<Seq<char>>,
    path: Option<Seq<char>>,
    resource: Seq<char>,
    known: Option<Result<Seq<char>, Seq<char>>>,
    options: Map<Seq<char>, ValueView>,
)
    ensures
        kinesis_stream((name, path, resource), known, options) is Ok ==> name is Some && path is Some
            && known is Some,
{
}

} // verus!
