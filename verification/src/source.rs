//! Planning of `CREATE SOURCE`.
use vstd::pervasive::unreached;
use vstd::prelude::*;
use vstd::string::*;

use crate::ast::{AvroSchema, Connector, CreateSourceStatement, Envelope, Format, Schema};
use crate::catalog::{Catalog, CatalogModel};
use crate::columns::{maybe_rename_columns, renamed};
use crate::context::{allocated_name, experimental_error, StatementContext};
use crate::dataflow::{
    clone_pairs, text_pairs, ConnectorView, Consistency, ConsistencyView, DataEncoding,
    DebeziumDeduplicationStrategy, EncodingView, EnvelopeView, ExternalSourceConnector, Region,
    RegionView, Source, SourceEnvelope, SourceView,
};
use crate::engine::{failed, stepped, Question, QuestionView, Replies, Role, Step, StepView};
use crate::error::{invalid, unsupported, viewed, ErrorKind, ErrorView, PlanError};
use crate::external::{
    arn_of, arn_parts, check_regex, parse_arn, parse_region, parse_url, regex_refusal, region_of, url_of, Arn,
    Duration,
};
use crate::names::text_option;
use crate::normalize::{item_name, object_name};
use crate::number::{parse_i64, parse_u64, read_signed, read_unsigned};
use crate::plan::{Plan, PlanView};
use crate::relation::{ColumnType, RelationDesc, RelationView};
use crate::text::{after_prefix, strip_prefix, text_eq};
use crate::value::{
    clone_options, optional_text, read_switch, read_text, setting, settings, switch, take_setting, SqlOption,
    Value, ValueView,
};

verus! {

// Options.

/// A number of milliseconds as a duration.
pub open spec fn millis(ms: nat) -> Duration {
    Duration { secs: (ms / 1000) as u64, nanos: ((ms % 1000) * 1_000_000) as u32 }
}

/// How often timestamps are given out: once a second by default.
pub open spec fn timestamp_frequency(options: Map<Seq<char>, ValueView>) -> Result<
    Duration,
    ErrorView,
> {
    let complaint = invalid("timestamp_frequency_ms must be an u64"@);
    if !options.contains_key("timestamp_frequency_ms"@) {
        Ok(Duration { secs: 1, nanos: 0 })
    } else {
        match options["timestamp_frequency_ms"@] {
            ValueView::Number(digits) => match read_unsigned(digits, u64::MAX as nat) {
                Ok(ms) => Ok(millis(ms)),
                Err(_) => Err(complaint),
            },
            _ => Err(complaint),
        }
    }
}

/// Takes the option out that says how often timestamps are given out, and reads it.
pub fn extract_timestamp_frequency_option(with_options: &mut Vec<SqlOption>) -> (r: Result<
    Duration,
    PlanError,
>)
    ensures
        settings(final(with_options)@) == settings(old(with_options)@).remove(
            "timestamp_frequency_ms"@,
        ),
        match r {
            Ok(d) => timestamp_frequency(settings(old(with_options)@)) == Ok::<
                Duration,
                ErrorView,
            >(d),
            Err(e) => timestamp_frequency(settings(old(with_options)@)) == Err::<
                Duration,
                ErrorView,
            >(e@),
        },
{
    match take_setting(with_options, "timestamp_frequency_ms") {
        None => Ok(Duration { secs: 1, nanos: 0 }),
        Some(Value::Number(digits)) => match parse_u64(digits.as_str()) {
            Ok(ms) => {
                let rest: u64 = ms % 1000;
                Ok(Duration { secs: ms / 1000, nanos: rest as u32 * 1_000_000 })
            },
            Err(_) => Err(PlanError::invalid("timestamp_frequency_ms must be an u64".to_owned())),
        },
        Some(_) => Err(PlanError::invalid("timestamp_frequency_ms must be an u64".to_owned())),
    }
}

/// Where timestamps come from: real time, unless a topic is named.
pub open spec fn consistency_option(options: Map<Seq<char>, ValueView>) -> Result<
    ConsistencyView,
    ErrorView,
> {
    match optional_text(options, "consistency"@, "consistency must be a string"@) {
        Ok(Some(topic)) => Ok(ConsistencyView::BringYourOwn(topic)),
        Ok(None) => Ok(ConsistencyView::RealTime),
        Err(e) => Err(e),
    }
}

fn read_consistency(with_options: &Vec<SqlOption>) -> (r: Result<Consistency, PlanError>)
    ensures
        viewed(r) == consistency_option(settings(with_options@)),
{
    match read_text(with_options, "consistency", "consistency must be a string") {
        Ok(Some(topic)) => Ok(Consistency::BringYourOwn(topic)),
        Ok(None) => Ok(Consistency::RealTime),
        Err(e) => Err(e),
    }
}

/// The offset to start from: zero by default, and never negative.
pub open spec fn start_offset_option(options: Map<Seq<char>, ValueView>) -> Result<int, ErrorView> {
    let complaint = invalid("start_offset must be a nonnegative integer"@);
    if !options.contains_key("start_offset"@) {
        Ok(0)
    } else {
        match options["start_offset"@] {
            ValueView::Number(digits) => match read_signed(digits) {
                Ok(n) => if n >= 0 {
                    Ok(n)
                } else {
                    Err(complaint)
                },
                Err(_) => Err(complaint),
            },
            _ => Err(complaint),
        }
    }
}

fn read_start_offset(with_options: &Vec<SqlOption>) -> (r: Result<i64, PlanError>)
    ensures
        match r {
            Ok(n) => start_offset_option(settings(with_options@)) == Ok::<int, ErrorView>(n as int),
            Err(e) => start_offset_option(settings(with_options@)) == Err::<int, ErrorView>(e@),
        },
{
    match setting(with_options, "start_offset") {
        None => Ok(0),
        Some(Value::Number(digits)) => match parse_i64(digits.as_str()) {
            Ok(n) => if n >= 0 {
                Ok(n)
            } else {
                Err(PlanError::invalid("start_offset must be a nonnegative integer".to_owned()))
            },
            Err(_) => Err(
                PlanError::invalid("start_offset must be a nonnegative integer".to_owned()),
            ),
        },
        Some(_) => Err(
            PlanError::invalid("start_offset must be a nonnegative integer".to_owned()),
        ),
    }
}

// Encodings.

/// Whether the schemas of a format stand in the statement itself.
pub open spec fn format_is_pure(format: Format) -> bool {
    match format {
        Format::Avro(AvroSchema::Schema(schema)) => schema is Inline,
        Format::Avro(AvroSchema::CsrUrl { seed, .. }) => seed is Some,
        Format::Protobuf { schema, .. } => schema is Inline,
        _ => true,
    }
}

/// The configuration of the Kafka client.
pub open spec fn kafka_config(options: Map<Seq<char>, ValueView>, replies: Replies) -> Result<
    Seq<(Seq<char>, Seq<char>)>,
    StepView<PlanView>,
> {
    match replies.kafka_config {
        None => Err(StepView::Ask(QuestionView::KafkaConfig { options })),
        Some(Ok(config)) => Ok(text_pairs(config@)),
        Some(Err(e)) => Err(failed(e@)),
    }
}

fn read_kafka_config(with_options: &Vec<SqlOption>, replies: &Replies) -> (r: Result<
    Vec<(String, String)>,
    Step<Plan>,
>)
    ensures
        match r {
            Ok(config) => kafka_config(settings(with_options@), *replies) == Ok::<
                Seq<(Seq<char>, Seq<char>)>,
                StepView<PlanView>,
            >(text_pairs(config@)),
            Err(step) => kafka_config(settings(with_options@), *replies) == Err::<
                Seq<(Seq<char>, Seq<char>)>,
                StepView<PlanView>,
            >(step@),
        },
{
    match &replies.kafka_config {
        None => Err(Step::Ask(Question::KafkaConfig { options: clone_options(with_options) })),
        Some(Ok(config)) => Ok(clone_pairs(config)),
        Some(Err(e)) => Err(Step::Done(Err(e.clone()))),
    }
}

/// What a parser makes of a text: another text, or a message where it refuses it.
pub open spec fn parsed_text(parsed: Result<String, String>) -> Result<Seq<char>, Seq<char>> {
    match parsed {
        Ok(text) => Ok(text@),
        Err(message) => Err(message@),
    }
}

/// The Avro encoding by the schemas that a registry gave, with what is made of
/// its URL. The registry is reached by the options of the source and by those
/// of the format.
pub open spec fn registry_encoding(
    role: Role,
    parsed: Result<Seq<char>, Seq<char>>,
    options: Map<Seq<char>, ValueView>,
    registry_options: Map<Seq<char>, ValueView>,
    key_schema: Option<Seq<char>>,
    value_schema: Seq<char>,
    replies: Replies,
) -> Result<EncodingView, StepView<PlanView>> {
    match parsed {
        Err(e) => Err(failed(ErrorView { kind: ErrorKind::Url, text: e })),
        Ok(url) => match kafka_config(options, replies) {
            Err(step) => Err(step),
            Ok(kafka_config) => {
                let reply = match role {
                    Role::Value => replies.value_registry,
                    Role::Key => replies.key_registry,
                };
                match reply {
                    None => Err(
                        StepView::Ask(
                            QuestionView::Registry {
                                role,
                                url,
                                kafka_config,
                                options: registry_options,
                            },
                        ),
                    ),
                    Some(Err(e)) => Err(failed(e@)),
                    Some(Ok(registry)) => Ok(
                        EncodingView::Avro { key_schema, value_schema, registry: Some(registry) },
                    ),
                }
            },
        },
    }
}

/// The Protobuf encoding by a schema.
pub open spec fn protobuf_encoding(
    role: Role,
    message_name: Seq<char>,
    text: Seq<char>,
    replies: Replies,
) -> Result<EncodingView, StepView<PlanView>> {
    let reply = match role {
        Role::Value => replies.value_descriptors,
        Role::Key => replies.key_descriptors,
    };
    match reply {
        None => Err(StepView::Ask(QuestionView::Descriptors { role, text })),
        Some(Err(e)) => Err(failed(e@)),
        Some(Ok(descriptors)) => Ok(
            EncodingView::Protobuf { descriptors: descriptors@, message_name },
        ),
    }
}

/// The encoding as comma-separated values. There are as many columns as the
/// statement names, or else as the format says.
pub open spec fn csv_encoding(
    header_row: bool,
    n_cols: Option<usize>,
    delimiter: char,
    named: nat,
) -> Result<EncodingView, ErrorView> {
    if named == 0 && n_cols is None {
        Err(
            invalid(
                "Cannot determine number of columns in CSV source; specify using CREATE SOURCE...FORMAT CSV WITH X COLUMNS"@,
            ),
        )
    } else if delimiter as u32 > 127 {
        Err(invalid("CSV delimiter must be an ASCII character"@))
    } else {
        Ok(
            EncodingView::Csv {
                header_row,
                n_cols: if named == 0 {
                    n_cols->0
                } else {
                    named as usize
                },
                delimiter: delimiter as u8,
            },
        )
    }
}

/// The encoding by a regular expression, unless it is refused.
pub open spec fn regex_encoding(pattern: Seq<char>, refusal: Option<Seq<char>>) -> Result<
    EncodingView,
    ErrorView,
> {
    match refusal {
        None => Ok(EncodingView::Regex { regex: pattern }),
        Some(message) => Err(ErrorView { kind: ErrorKind::Regex, text: message }),
    }
}

/// The encoding by a regular expression, unless it is refused.
pub fn get_regex_encoding(pattern: &str, refusal: Option<String>) -> (r: Result<
    DataEncoding,
    PlanError,
>)
    ensures
        viewed(r) == regex_encoding(pattern@, text_option(refusal)),
{
    match refusal {
        None => Ok(DataEncoding::Regex { regex: pattern.to_owned() }),
        Some(text) => Err(PlanError { kind: ErrorKind::Regex, text }),
    }
}

/// The encoding that a format stands for, in a source with these options and
/// this many named columns.
pub open spec fn encoding_of(
    role: Role,
    format: Option<Format>,
    options: Map<Seq<char>, ValueView>,
    named: nat,
    replies: Replies,
) -> Result<EncodingView, StepView<PlanView>> {
    match format {
        None => Err(failed(invalid("Source format must be specified"@))),
        Some(Format::Bytes) => Ok(EncodingView::Bytes),
        Some(Format::Avro(AvroSchema::Schema(Schema::Inline(schema)))) => Ok(
            EncodingView::Avro { key_schema: None, value_schema: schema@, registry: None },
        ),
        Some(Format::Avro(AvroSchema::CsrUrl { url, seed: Some(seed), with_options })) =>
            registry_encoding(
            role,
            url_of(url@),
            options,
            settings(with_options@),
            text_option(seed.key_schema),
            seed.value_schema@,
            replies,
        ),
        Some(Format::Protobuf { message_name, schema: Schema::Inline(text) }) => protobuf_encoding(
            role,
            message_name@,
            text@,
            replies,
        ),
        Some(Format::Regex(pattern)) => match regex_encoding(pattern@, regex_refusal(pattern@)) {
            Ok(encoding) => Ok(encoding),
            Err(e) => Err(failed(e)),
        },
        Some(Format::Csv { header_row, n_cols, delimiter }) => match csv_encoding(
            header_row,
            n_cols,
            delimiter,
            named,
        ) {
            Ok(encoding) => Ok(encoding),
            Err(e) => Err(failed(e)),
        },
        Some(Format::Json) => Err(failed(unsupported("JSON sources"@))),
        Some(Format::Text) => Ok(EncodingView::Text),
        _ => arbitrary(),
    }
}

/// The Avro encoding by the schemas that a registry gave, with what is made of its URL.
pub fn get_registry_encoding(
    role: Role,
    parsed: Result<String, String>,
    with_options: &Vec<SqlOption>,
    registry_options: &Vec<SqlOption>,
    key_schema: Option<String>,
    value_schema: String,
    replies: &Replies,
) -> (r: Result<DataEncoding, Step<Plan>>)
    ensures
        stepped(r) == registry_encoding(
            role,
            parsed_text(parsed),
            settings(with_options@),
            settings(registry_options@),
            text_option(key_schema),
            value_schema@,
            *replies,
        ),
{
    let url = match parsed {
        Ok(url) => url,
        Err(text) => {
            return Err(Step::Done(Err(PlanError { kind: ErrorKind::Url, text })));
        },
    };
    let kafka_config = match read_kafka_config(with_options, replies) {
        Ok(config) => config,
        Err(step) => {
            return Err(step);
        },
    };
    let reply = match role {
        Role::Value => &replies.value_registry,
        Role::Key => &replies.key_registry,
    };
    match reply {
        None => Err(
            Step::Ask(
                Question::Registry {
                    role,
                    url,
                    kafka_config,
                    options: clone_options(registry_options),
                },
            ),
        ),
        Some(Err(e)) => Err(Step::Done(Err(e.clone()))),
        Some(Ok(registry)) => Ok(
            DataEncoding::Avro { key_schema, value_schema, registry: Some(*registry) },
        ),
    }
}

fn read_protobuf_encoding(role: Role, message_name: &str, text: &str, replies: &Replies) -> (r:
    Result<DataEncoding, Step<Plan>>)
    ensures
        stepped(r) == protobuf_encoding(role, message_name@, text@, *replies),
{
    let reply = match role {
        Role::Value => &replies.value_descriptors,
        Role::Key => &replies.key_descriptors,
    };
    match reply {
        None => Err(Step::Ask(Question::Descriptors { role, text: text.to_owned() })),
        Some(Err(e)) => Err(Step::Done(Err(e.clone()))),
        Some(Ok(bytes)) => {
            let descriptors = bytes.clone();
            assert(descriptors@ =~= bytes@);
            Ok(DataEncoding::Protobuf { descriptors, message_name: message_name.to_owned() })
        },
    }
}

fn read_csv_encoding(
    header_row: bool,
    n_cols: Option<usize>,
    delimiter: char,
    named: usize,
) -> (r: Result<DataEncoding, PlanError>)
    ensures
        viewed(r) == csv_encoding(header_row, n_cols, delimiter, named as nat),
{
    let n_cols: usize = if named == 0 {
        match n_cols {
            Some(n) => n,
            None => {
                return Err(
                    PlanError::invalid(
                        "Cannot determine number of columns in CSV source; specify using CREATE SOURCE...FORMAT CSV WITH X COLUMNS".to_owned(),
                    ),
                );
            },
        }
    } else {
        named
    };
    let code: u32 = delimiter as u32;
    if code > 127 {
        return Err(PlanError::invalid("CSV delimiter must be an ASCII character".to_owned()));
    }
    Ok(DataEncoding::Csv { header_row, n_cols, delimiter: code as u8 })
}

/// The encoding that a format stands for.
pub fn get_encoding(
    role: Role,
    format: &Option<Format>,
    with_options: &Vec<SqlOption>,
    named: usize,
    replies: &Replies,
) -> (r: Result<DataEncoding, Step<Plan>>)
    requires
        *format matches Some(f) ==> format_is_pure(f),
    ensures
        stepped(r) == encoding_of(role, *format, settings(with_options@), named as nat, *replies),
{
    match format {
        None => Err(
            Step::Done(Err(PlanError::invalid("Source format must be specified".to_owned()))),
        ),
        Some(Format::Bytes) => Ok(DataEncoding::Bytes),
        Some(Format::Avro(AvroSchema::Schema(Schema::Inline(schema)))) => Ok(
            DataEncoding::Avro { key_schema: None, value_schema: schema.clone(), registry: None },
        ),
        Some(Format::Avro(AvroSchema::CsrUrl { url, seed: Some(seed), with_options: own })) => {
            let key_schema = match &seed.key_schema {
                Some(schema) => Some(schema.clone()),
                None => None,
            };
            get_registry_encoding(
                role,
                parse_url(url.as_str()),
                with_options,
                own,
                key_schema,
                seed.value_schema.clone(),
                replies,
            )
        },
        Some(Format::Protobuf { message_name, schema: Schema::Inline(text) }) =>
            read_protobuf_encoding(
            role,
            message_name.as_str(),
            text.as_str(),
            replies,
        ),
        Some(Format::Regex(pattern)) => match get_regex_encoding(
            pattern.as_str(),
            check_regex(pattern.as_str()),
        ) {
            Ok(encoding) => Ok(encoding),
            Err(e) => Err(Step::Done(Err(e))),
        },
        Some(Format::Csv { header_row, n_cols, delimiter }) => match read_csv_encoding(
            *header_row,
            *n_cols,
            *delimiter,
            named,
        ) {
            Ok(encoding) => Ok(encoding),
            Err(e) => Err(Step::Done(Err(e))),
        },
        Some(Format::Json) => Err(Step::Done(Err(PlanError::unsupported("JSON sources")))),
        Some(Format::Text) => Ok(DataEncoding::Text),
        _ => unreached(),
    }
}

// Connectors.

/// What is known of a source by its connector and format.
#[derive(Debug)]
pub struct Ingest {
    pub connector: ExternalSourceConnector,
    pub encoding: DataEncoding,
    pub consistency: Consistency,
    pub ts_frequency: Duration,
}

/// The contents of an [`Ingest`].
#[verifier::ext_equal]
pub struct IngestView {
    pub connector: ConnectorView,
    pub encoding: EncodingView,
    pub consistency: ConsistencyView,
    pub ts_frequency: Duration,
}

impl View for Ingest {
    type V = IngestView;

    open spec fn view(&self) -> IngestView {
        IngestView {
            connector: self.connector@,
            encoding: self.encoding@,
            consistency: self.consistency@,
            ts_frequency: self.ts_frequency,
        }
    }
}

/// What the options of a Kafka source say.
#[derive(Debug)]
pub struct KafkaOptions {
    pub consistency: Consistency,
    pub group_id_prefix: Option<String>,
    pub ts_frequency: Duration,
    pub start_offset: i64,
    pub enable_persistence: bool,
}

/// The contents of [`KafkaOptions`].
#[verifier::ext_equal]
pub struct KafkaOptionsView {
    pub consistency: ConsistencyView,
    pub group_id_prefix: Option<Seq<char>>,
    pub ts_frequency: Duration,
    pub start_offset: int,
    pub enable_persistence: bool,
}

impl View for KafkaOptions {
    type V = KafkaOptionsView;

    open spec fn view(&self) -> KafkaOptionsView {
        KafkaOptionsView {
            consistency: self.consistency@,
            group_id_prefix: text_option(self.group_id_prefix),
            ts_frequency: self.ts_frequency,
            start_offset: self.start_offset as int,
            enable_persistence: self.enable_persistence,
        }
    }
}

/// What the options of a Kafka source say. An offset to start from, and
/// persistence, are for sources whose timestamps come from real time.
pub open spec fn kafka_options(options: Map<Seq<char>, ValueView>) -> Result<
    KafkaOptionsView,
    ErrorView,
> {
    match (
        consistency_option(options),
        optional_text(options, "group_id_prefix"@, "group_id_prefix must be a string"@),
        timestamp_frequency(options),
        start_offset_option(options),
        switch(options, "persistence"@, "persistence must be a bool!"@),
    ) {
        (Err(e), _, _, _, _) => Err(e),
        (_, Err(e), _, _, _) => Err(e),
        (_, _, Err(e), _, _) => Err(e),
        (_, _, _, Err(e), _) => Err(e),
        (Ok(consistency), Ok(group_id_prefix), Ok(ts_frequency), Ok(start_offset), persistence) => {
            if start_offset != 0 && consistency !is RealTime {
                Err(
                    invalid(
                        "`start_offset` is not yet implemented for BYO consistency sources."@,
                    ),
                )
            } else {
                match persistence {
                    Err(e) => Err(e),
                    Ok(enable_persistence) => if enable_persistence && consistency !is RealTime {
                        Err(unsupported("BYO source persistence"@))
                    } else {
                        Ok(
                            KafkaOptionsView {
                                consistency,
                                group_id_prefix,
                                ts_frequency,
                                start_offset,
                                enable_persistence,
                            },
                        )
                    },
                }
            }
        },
    }
}

fn read_kafka_options(with_options: &Vec<SqlOption>) -> (r: Result<KafkaOptions, PlanError>)
    ensures
        viewed(r) == kafka_options(settings(with_options@)),
{
    let consistency = match read_consistency(with_options) {
        Ok(consistency) => consistency,
        Err(e) => {
            return Err(e);
        },
    };
    let group_id_prefix = match read_text(
        with_options,
        "group_id_prefix",
        "group_id_prefix must be a string",
    ) {
        Ok(prefix) => prefix,
        Err(e) => {
            return Err(e);
        },
    };
    let mut rest = clone_options(with_options);
    proof {
        reveal_strlit("timestamp_frequency_ms");
        reveal_strlit("start_offset");
        reveal_strlit("persistence");
        assert("timestamp_frequency_ms"@.len() != "start_offset"@.len());
        assert("timestamp_frequency_ms"@.len() != "persistence"@.len());
    }
    let ts_frequency = match extract_timestamp_frequency_option(&mut rest) {
        Ok(frequency) => frequency,
        Err(e) => {
            return Err(e);
        },
    };
    let start_offset: i64 = match read_start_offset(&rest) {
        Ok(offset) => offset,
        Err(e) => {
            return Err(e);
        },
    };
    let real_time = matches!(consistency, Consistency::RealTime);
    if start_offset != 0 && !real_time {
        return Err(
            PlanError::invalid(
                "`start_offset` is not yet implemented for BYO consistency sources.".to_owned(),
            ),
        );
    }
    let enable_persistence = match read_switch(
        &rest,
        "persistence",
        "persistence must be a bool!",
    ) {
        Ok(on) => on,
        Err(e) => {
            return Err(e);
        },
    };
    if enable_persistence && !real_time {
        return Err(PlanError::unsupported("BYO source persistence"));
    }
    Ok(KafkaOptions { consistency, group_id_prefix, ts_frequency, start_offset, enable_persistence })
}

/// A Kafka source.
pub open spec fn kafka_ingest(
    broker: Seq<char>,
    topic: Seq<char>,
    options: Map<Seq<char>, ValueView>,
    format: Option<Format>,
    named: nat,
    replies: Replies,
) -> Result<IngestView, StepView<PlanView>> {
    match kafka_config(options, replies) {
        Err(step) => Err(step),
        Ok(config_options) => match kafka_options(options) {
            Err(e) => Err(failed(e)),
            Ok(chosen) => match replies.kafka_addrs {
                None => Err(StepView::Ask(QuestionView::KafkaAddrs { broker })),
                Some(Err(e)) => Err(failed(e@)),
                Some(Ok(addrs)) => match encoding_of(
                    Role::Value,
                    format,
                    options,
                    named,
                    replies,
                ) {
                    Err(step) => Err(step),
                    Ok(encoding) => Ok(
                        IngestView {
                            connector: ConnectorView::Kafka {
                                addrs,
                                topic,
                                config_options,
                                start_offsets: seq![(0i32, chosen.start_offset as i64)],
                                group_id_prefix: chosen.group_id_prefix,
                                enable_persistence: chosen.enable_persistence,
                                persisted_files: None,
                            },
                            encoding,
                            consistency: chosen.consistency,
                            ts_frequency: chosen.ts_frequency,
                        },
                    ),
                },
            },
        },
    }
}

fn read_kafka_ingest(
    broker: &str,
    topic: &str,
    with_options: &Vec<SqlOption>,
    format: &Option<Format>,
    named: usize,
    replies: &Replies,
) -> (r: Result<Ingest, Step<Plan>>)
    requires
        *format matches Some(f) ==> format_is_pure(f),
    ensures
        stepped(r) == kafka_ingest(
            broker@,
            topic@,
            settings(with_options@),
            *format,
            named as nat,
            *replies,
        ),
{
    let config_options = match read_kafka_config(with_options, replies) {
        Ok(config) => config,
        Err(step) => {
            return Err(step);
        },
    };
    let chosen = match read_kafka_options(with_options) {
        Ok(chosen) => chosen,
        Err(e) => {
            return Err(Step::Done(Err(e)));
        },
    };
    let addrs = match &replies.kafka_addrs {
        None => {
            return Err(Step::Ask(Question::KafkaAddrs { broker: broker.to_owned() }));
        },
        Some(Err(e)) => {
            return Err(Step::Done(Err(e.clone())));
        },
        Some(Ok(addrs)) => *addrs,
    };
    let encoding = match get_encoding(Role::Value, format, with_options, named, replies) {
        Ok(encoding) => encoding,
        Err(step) => {
            return Err(step);
        },
    };
    let mut start_offsets: Vec<(i32, i64)> = Vec::new();
    start_offsets.push((0, chosen.start_offset));
    assert(start_offsets@ =~= seq![(0i32, chosen.start_offset)]);
    Ok(
        Ingest {
            connector: ExternalSourceConnector::Kafka {
                addrs,
                topic: topic.to_owned(),
                config_options,
                start_offsets,
                group_id_prefix: chosen.group_id_prefix,
                enable_persistence: chosen.enable_persistence,
                persisted_files: None,
            },
            encoding,
            consistency: chosen.consistency,
            ts_frequency: chosen.ts_frequency,
        },
    )
}

/// The name of the stream that an Amazon resource is.
pub open spec fn stream_name(path: Option<Seq<char>>, resource: Seq<char>) -> Result<
    Seq<char>,
    ErrorView,
> {
    match path {
        Some(path) => match after_prefix(path, "stream/"@) {
            Some(name) => Ok(name),
            None => Err(invalid("Unable to parse stream name from resource path: "@ + path)),
        },
        None => Err(unsupported("AWS Resource type: "@ + resource)),
    }
}

fn read_stream_name(path: &Option<String>, resource: &str) -> (r: Result<String, PlanError>)
    ensures
        viewed(r) == stream_name(text_option(*path), resource@),
{
    match path {
        Some(path) => match strip_prefix(path.as_str(), "stream/") {
            Some(name) => Ok(name),
            None => Err(
                PlanError::invalid(
                    "Unable to parse stream name from resource path: ".to_owned().concat(
                        path.as_str(),
                    ),
                ),
            ),
        },
        None => Err(
            PlanError::unsupported("AWS Resource type: ".to_owned().concat(resource).as_str()),
        ),
    }
}

/// The region of a stream, by its name and by what is made of that. One that
/// is not known needs an endpoint.
pub open spec fn region_named(
    name: Seq<char>,
    parsed: Result<Seq<char>, Seq<char>>,
    options: Map<Seq<char>, ValueView>,
) -> Result<RegionView, ErrorView> {
    match parsed {
        Ok(known) => Ok(RegionView::Aws(known)),
        Err(message) => if options.contains_key("endpoint"@) && options["endpoint"@] is String {
            Ok(RegionView::Custom { name, endpoint: options["endpoint"@]->String_0 })
        } else {
            Err(
                invalid(
                    "Unable to parse AWS region: "@ + message
                        + ". If providing a custom region, an `endpoint` option must also be provided"@,
                ),
            )
        },
    }
}

/// The region of a stream, by its name and by what is made of that.
pub fn find_region(name: String, parsed: Result<String, String>, with_options: &Vec<SqlOption>) -> (r:
    Result<Region, PlanError>)
    ensures
        viewed(r) == region_named(name@, parsed_text(parsed), settings(with_options@)),
{
    match parsed {
        Ok(known) => Ok(Region::Aws(known)),
        Err(message) => match setting(with_options, "endpoint") {
            Some(Value::String(endpoint)) => Ok(Region::Custom { name, endpoint }),
            _ => Err(
                PlanError::invalid(
                    "Unable to parse AWS region: ".to_owned().concat(message.as_str()).concat(
                        ". If providing a custom region, an `endpoint` option must also be provided",
                    ),
                ),
            ),
        },
    }
}

/// A stream of Kinesis, by the parts of its Amazon resource name and by what
/// is made of the region in it.
pub open spec fn kinesis_stream(
    arn: (Option<Seq<char>>, Option<Seq<char>>, Seq<char>),
    known: Option<Result<Seq<char>, Seq<char>>>,
    options: Map<Seq<char>, ValueView>,
) -> Result<ConnectorView, ErrorView> {
    let (name, path, resource) = arn;
    let region = match (name, known) {
        (Some(name), Some(parsed)) => region_named(name, parsed, options),
        _ => Err(invalid("Provided ARN does not include an AWS region"@)),
    };
    match (
        stream_name(path, resource),
        region,
        optional_text(options, "access_key_id"@, "access_key_id must be a string"@),
        optional_text(options, "secret_access_key"@, "secret_access_key must be a string"@),
        optional_text(options, "token"@, "token must be a string"@),
    ) {
        (Err(e), _, _, _, _) => Err(e),
        (_, Err(e), _, _, _) => Err(e),
        (_, _, Err(e), _, _) => Err(e),
        (_, _, _, Err(e), _) => Err(e),
        (_, _, _, _, Err(e)) => Err(e),
        (Ok(stream_name), Ok(region), Ok(access_key_id), Ok(secret_access_key), Ok(token)) => Ok(
            ConnectorView::Kinesis { stream_name, region, access_key_id, secret_access_key, token },
        ),
    }
}

/// A stream of Kinesis, by the parts of its Amazon resource name and by what
/// is made of the region in it.
pub fn find_kinesis_stream(
    arn: Arn,
    known: Option<Result<String, String>>,
    with_options: &Vec<SqlOption>,
) -> (r: Result<ExternalSourceConnector, PlanError>)
    ensures
        viewed(r) == kinesis_stream(
            arn_parts(arn),
            match known {
                Some(parsed) => Some(parsed_text(parsed)),
                None => None,
            },
            settings(with_options@),
        ),
{
    let stream_name = match read_stream_name(&arn.path, arn.resource.as_str()) {
        Ok(name) => name,
        Err(e) => {
            return Err(e);
        },
    };
    let region = match (arn.region, known) {
        (Some(name), Some(parsed)) => match find_region(name, parsed, with_options) {
            Ok(region) => region,
            Err(e) => {
                return Err(e);
            },
        },
        _ => {
            return Err(
                PlanError::invalid("Provided ARN does not include an AWS region".to_owned()),
            );
        },
    };
    let access_key_id = match read_text(
        with_options,
        "access_key_id",
        "access_key_id must be a string",
    ) {
        Ok(text) => text,
        Err(e) => {
            return Err(e);
        },
    };
    let secret_access_key = match read_text(
        with_options,
        "secret_access_key",
        "secret_access_key must be a string",
    ) {
        Ok(text) => text,
        Err(e) => {
            return Err(e);
        },
    };
    let token = match read_text(with_options, "token", "token must be a string") {
        Ok(text) => text,
        Err(e) => {
            return Err(e);
        },
    };
    Ok(
        ExternalSourceConnector::Kinesis {
            stream_name,
            region,
            access_key_id,
            secret_access_key,
            token,
        },
    )
}

/// The stream of Kinesis that an Amazon resource name stands for.
pub open spec fn kinesis_connector(
    arn: Seq<char>,
    options: Map<Seq<char>, ValueView>,
) -> Result<ConnectorView, ErrorView> {
    match arn_of(arn) {
        Err(e) => Err(invalid("Unable to parse provided ARN: "@ + e)),
        Ok(parts) => kinesis_stream(
            parts,
            match parts.0 {
                Some(name) => Some(region_of(name)),
                None => None,
            },
            options,
        ),
    }
}

fn read_kinesis_connector(arn: &str, with_options: &Vec<SqlOption>) -> (r: Result<
    ExternalSourceConnector,
    PlanError,
>)
    ensures
        viewed(r) == kinesis_connector(arn@, settings(with_options@)),
{
    let arn = match parse_arn(arn) {
        Ok(arn) => arn,
        Err(e) => {
            return Err(
                PlanError::invalid("Unable to parse provided ARN: ".to_owned().concat(e.as_str())),
            );
        },
    };
    let known = match &arn.region {
        Some(name) => Some(parse_region(name.as_str())),
        None => None,
    };
    find_kinesis_stream(arn, known, with_options)
}

/// What the options of a file source say.
pub open spec fn file_options(options: Map<Seq<char>, ValueView>) -> Result<
    (bool, ConsistencyView, Duration),
    ErrorView,
> {
    match (
        switch(options, "tail"@, "tail must be a boolean"@),
        consistency_option(options),
        timestamp_frequency(options),
    ) {
        (Err(e), _, _) => Err(e),
        (_, Err(e), _) => Err(e),
        (_, _, Err(e)) => Err(e),
        (Ok(tail), Ok(consistency), Ok(ts_frequency)) => Ok((tail, consistency, ts_frequency)),
    }
}

fn read_file_options(with_options: &Vec<SqlOption>) -> (r: Result<
    (bool, Consistency, Duration),
    PlanError,
>)
    ensures
        match r {
            Ok(chosen) => file_options(settings(with_options@)) == Ok::<
                (bool, ConsistencyView, Duration),
                ErrorView,
            >((chosen.0, chosen.1@, chosen.2)),
            Err(e) => file_options(settings(with_options@)) == Err::<
                (bool, ConsistencyView, Duration),
                ErrorView,
            >(e@),
        },
{
    let tail = match read_switch(with_options, "tail", "tail must be a boolean") {
        Ok(tail) => tail,
        Err(e) => {
            return Err(e);
        },
    };
    let consistency = match read_consistency(with_options) {
        Ok(consistency) => consistency,
        Err(e) => {
            return Err(e);
        },
    };
    let mut rest = clone_options(with_options);
    match extract_timestamp_frequency_option(&mut rest) {
        Ok(ts_frequency) => Ok((tail, consistency, ts_frequency)),
        Err(e) => Err(e),
    }
}

/// The encoding of an Avro container file.
pub open spec fn ocf_encoding(
    format: Option<Format>,
    options: Map<Seq<char>, ValueView>,
) -> Result<EncodingView, ErrorView> {
    if format is Some {
        Err(invalid("avro ocf sources cannot specify a format"@))
    } else {
        match options["reader_schema"@] {
            ValueView::String(reader_schema) => Ok(EncodingView::AvroOcf { reader_schema }),
            _ => Err(invalid("reader_schema option must be a string"@)),
        }
    }
}

fn read_ocf_encoding(format: &Option<Format>, with_options: &Vec<SqlOption>) -> (r: Result<
    DataEncoding,
    PlanError,
>)
    requires
        settings(with_options@).contains_key("reader_schema"@),
    ensures
        viewed(r) == ocf_encoding(*format, settings(with_options@)),
{
    if format.is_some() {
        return Err(PlanError::invalid("avro ocf sources cannot specify a format".to_owned()));
    }
    match setting(with_options, "reader_schema") {
        Some(Value::String(reader_schema)) => Ok(DataEncoding::AvroOcf { reader_schema }),
        _ => Err(PlanError::invalid("reader_schema option must be a string".to_owned())),
    }
}

/// Whether everything that planning needs of the outside world has been put
/// into the statement: schemas, and for Avro container files the reader schema.
pub open spec fn is_pure(stmt: CreateSourceStatement) -> bool {
    &&& stmt.connector is AvroOcf ==> settings(stmt.with_options@).contains_key("reader_schema"@)
    &&& stmt.connector !is AvroOcf ==> (stmt.format matches Some(f) ==> format_is_pure(f))
    &&& stmt.connector is Kafka ==> (stmt.envelope matches Envelope::Upsert(Some(f))
        ==> format_is_pure(f))
}

/// The source by its connector and format.
pub open spec fn ingest_of(stmt: CreateSourceStatement, replies: Replies) -> Result<
    IngestView,
    StepView<PlanView>,
> {
    let options = settings(stmt.with_options@);
    let named = stmt.col_names@.len();
    match stmt.connector {
        Connector::Kafka { broker, topic } => kafka_ingest(
            broker@,
            topic@,
            options,
            stmt.format,
            named,
            replies,
        ),
        Connector::Kinesis { arn } => match kinesis_connector(arn@, options) {
            Err(e) => Err(failed(e)),
            Ok(connector) => match encoding_of(
                Role::Value,
                stmt.format,
                options,
                named,
                replies,
            ) {
                Err(step) => Err(step),
                Ok(encoding) => Ok(
                    IngestView {
                        connector,
                        encoding,
                        consistency: ConsistencyView::RealTime,
                        ts_frequency: Duration { secs: 1, nanos: 0 },
                    },
                ),
            },
        },
        Connector::File { path } => match file_options(options) {
            Err(e) => Err(failed(e)),
            Ok((tail, consistency, ts_frequency)) => match encoding_of(
                Role::Value,
                stmt.format,
                options,
                named,
                replies,
            ) {
                Err(step) => Err(step),
                Ok(encoding) => Ok(
                    IngestView {
                        connector: ConnectorView::File { path: path@, tail },
                        encoding,
                        consistency,
                        ts_frequency,
                    },
                ),
            },
        },
        Connector::AvroOcf { path } => match file_options(options) {
            Err(e) => Err(failed(e)),
            Ok((tail, consistency, ts_frequency)) => match ocf_encoding(stmt.format, options) {
                Err(e) => Err(failed(e)),
                Ok(encoding) => Ok(
                    IngestView {
                        connector: ConnectorView::AvroOcf { path: path@, tail },
                        encoding,
                        consistency,
                        ts_frequency,
                    },
                ),
            },
        },
    }
}

fn read_ingest(stmt: &CreateSourceStatement, replies: &Replies) -> (r: Result<Ingest, Step<Plan>>)
    requires
        is_pure(*stmt),
    ensures
        stepped(r) == ingest_of(*stmt, *replies),
{
    let named: usize = stmt.col_names.len();
    match &stmt.connector {
        Connector::Kafka { broker, topic } => read_kafka_ingest(
            broker.as_str(),
            topic.as_str(),
            &stmt.with_options,
            &stmt.format,
            named,
            replies,
        ),
        Connector::Kinesis { arn } => {
            let connector = match read_kinesis_connector(arn.as_str(), &stmt.with_options) {
                Ok(connector) => connector,
                Err(e) => {
                    return Err(Step::Done(Err(e)));
                },
            };
            match get_encoding(Role::Value, &stmt.format, &stmt.with_options, named, replies) {
                Ok(encoding) => Ok(
                    Ingest {
                        connector,
                        encoding,
                        consistency: Consistency::RealTime,
                        ts_frequency: Duration { secs: 1, nanos: 0 },
                    },
                ),
                Err(step) => Err(step),
            }
        },
        Connector::File { path } => {
            let (tail, consistency, ts_frequency) = match read_file_options(&stmt.with_options) {
                Ok(chosen) => chosen,
                Err(e) => {
                    return Err(Step::Done(Err(e)));
                },
            };
            let connector = ExternalSourceConnector::File { path: path.clone(), tail };
            match get_encoding(Role::Value, &stmt.format, &stmt.with_options, named, replies) {
                Ok(encoding) => Ok(Ingest { connector, encoding, consistency, ts_frequency }),
                Err(step) => Err(step),
            }
        },
        Connector::AvroOcf { path } => {
            let (tail, consistency, ts_frequency) = match read_file_options(&stmt.with_options) {
                Ok(chosen) => chosen,
                Err(e) => {
                    return Err(Step::Done(Err(e)));
                },
            };
            let connector = ExternalSourceConnector::AvroOcf { path: path.clone(), tail };
            match read_ocf_encoding(&stmt.format, &stmt.with_options) {
                Ok(encoding) => Ok(Ingest { connector, encoding, consistency, ts_frequency }),
                Err(e) => Err(Step::Done(Err(e))),
            }
        },
    }
}

// Envelopes.

/// How records that come more than once are told from new ones.
pub open spec fn deduplication(options: Map<Seq<char>, ValueView>) -> Result<
    DebeziumDeduplicationStrategy,
    ErrorView,
> {
    if !options.contains_key("deduplication"@) {
        Ok(DebeziumDeduplicationStrategy::Ordered)
    } else if options["deduplication"@] == ValueView::String("full"@) {
        Ok(DebeziumDeduplicationStrategy::Full)
    } else if options["deduplication"@] == ValueView::String("ordered"@) {
        Ok(DebeziumDeduplicationStrategy::Ordered)
    } else {
        Err(invalid("deduplication must be either 'full' or 'ordered'."@))
    }
}

fn read_deduplication(with_options: &Vec<SqlOption>) -> (r: Result<
    DebeziumDeduplicationStrategy,
    PlanError,
>)
    ensures
        match r {
            Ok(s) => deduplication(settings(with_options@)) == Ok::<
                DebeziumDeduplicationStrategy,
                ErrorView,
            >(s),
            Err(e) => deduplication(settings(with_options@)) == Err::<
                DebeziumDeduplicationStrategy,
                ErrorView,
            >(e@),
        },
{
    match setting(with_options, "deduplication") {
        None => Ok(DebeziumDeduplicationStrategy::Ordered),
        Some(Value::String(s)) => {
            if text_eq(s.as_str(), "full") {
                Ok(DebeziumDeduplicationStrategy::Full)
            } else if text_eq(s.as_str(), "ordered") {
                Ok(DebeziumDeduplicationStrategy::Ordered)
            } else {
                Err(
                    PlanError::invalid(
                        "deduplication must be either 'full' or 'ordered'.".to_owned(),
                    ),
                )
            }
        },
        Some(_) => Err(
            PlanError::invalid("deduplication must be either 'full' or 'ordered'.".to_owned()),
        ),
    }
}

/// The encoding of the keys of an upsert source: a key schema takes the place
/// of the value schema, since it is what keys are decoded by.
pub open spec fn key_encoding(encoding: EncodingView) -> Result<EncodingView, ErrorView> {
    match encoding {
        EncodingView::Avro { key_schema: Some(key_schema), value_schema, registry } => Ok(
            EncodingView::Avro { key_schema: None, value_schema: key_schema, registry },
        ),
        EncodingView::Avro { .. } => Ok(encoding),
        EncodingView::Bytes => Ok(encoding),
        EncodingView::Text => Ok(encoding),
        _ => Err(unsupported("format for upsert key"@)),
    }
}

fn read_key_encoding(encoding: DataEncoding) -> (r: Result<DataEncoding, PlanError>)
    ensures
        viewed(r) == key_encoding(encoding@),
{
    match encoding {
        DataEncoding::Avro { key_schema: Some(key_schema), value_schema: _, registry } => Ok(
            DataEncoding::Avro { key_schema: None, value_schema: key_schema, registry },
        ),
        DataEncoding::Avro { key_schema: None, value_schema, registry } => Ok(
            DataEncoding::Avro { key_schema: None, value_schema, registry },
        ),
        DataEncoding::Bytes => Ok(DataEncoding::Bytes),
        DataEncoding::Text => Ok(DataEncoding::Text),
        _ => Err(PlanError::unsupported("format for upsert key")),
    }
}

/// The envelope of a source whose records are encoded like this.
pub open spec fn envelope_of(
    catalog: CatalogModel,
    stmt: CreateSourceStatement,
    encoding: EncodingView,
    replies: Replies,
) -> Result<EnvelopeView, StepView<PlanView>> {
    match stmt.envelope {
        Envelope::NoEnvelope => Ok(EnvelopeView::NoEnvelope),
        Envelope::Debezium => match deduplication(settings(stmt.with_options@)) {
            Ok(strategy) => Ok(EnvelopeView::Debezium(strategy)),
            Err(e) => Err(failed(e)),
        },
        Envelope::Upsert(key_format) => if stmt.connector is Kafka {
            let given = if key_format is Some {
                encoding_of(
                    Role::Key,
                    key_format,
                    settings(stmt.with_options@),
                    stmt.col_names@.len(),
                    replies,
                )
            } else {
                Ok(encoding)
            };
            match given {
                Err(step) => Err(step),
                Ok(given) => match key_encoding(given) {
                    Ok(key) => Ok(EnvelopeView::Upsert(key)),
                    Err(e) => Err(failed(e)),
                },
            }
        } else {
            Err(failed(unsupported("upsert envelope for non-Kafka sources"@)))
        },
        Envelope::CdcV2 => if !catalog.experimental {
            Err(failed(experimental_error("ENVELOPE MATERIALIZE"@)))
        } else if stmt.connector is AvroOcf {
            Err(failed(unsupported("ENVELOPE MATERIALIZE over OCF (Avro files)"@)))
        } else {
            match stmt.format {
                Some(Format::Avro(_)) => Ok(EnvelopeView::CdcV2),
                _ => Err(failed(unsupported("non-Avro-encoded ENVELOPE MATERIALIZE"@))),
            }
        },
    }
}

fn read_envelope<C: Catalog>(
    scx: &StatementContext<C>,
    stmt: &CreateSourceStatement,
    encoding: &DataEncoding,
    replies: &Replies,
) -> (r: Result<SourceEnvelope, Step<Plan>>)
    requires
        is_pure(*stmt),
    ensures
        stepped(r) == envelope_of(scx.catalog.model(), *stmt, encoding@, *replies),
{
    match &stmt.envelope {
        Envelope::NoEnvelope => Ok(SourceEnvelope::NoEnvelope),
        Envelope::Debezium => match read_deduplication(&stmt.with_options) {
            Ok(strategy) => Ok(SourceEnvelope::Debezium(strategy)),
            Err(e) => Err(Step::Done(Err(e))),
        },
        Envelope::Upsert(key_format) => {
            if !matches!(stmt.connector, Connector::Kafka { .. }) {
                return Err(
                    Step::Done(
                        Err(PlanError::unsupported("upsert envelope for non-Kafka sources")),
                    ),
                );
            }
            let given = if key_format.is_some() {
                match get_encoding(
                    Role::Key,
                    key_format,
                    &stmt.with_options,
                    stmt.col_names.len(),
                    replies,
                ) {
                    Ok(given) => given,
                    Err(step) => {
                        return Err(step);
                    },
                }
            } else {
                encoding.clone()
            };
            match read_key_encoding(given) {
                Ok(key) => Ok(SourceEnvelope::Upsert(key)),
                Err(e) => Err(Step::Done(Err(e))),
            }
        },
        Envelope::CdcV2 => {
            match scx.require_experimental_mode("ENVELOPE MATERIALIZE") {
                Ok(()) => {},
                Err(e) => {
                    return Err(Step::Done(Err(e)));
                },
            }
            if matches!(stmt.connector, Connector::AvroOcf { .. }) {
                return Err(
                    Step::Done(
                        Err(PlanError::unsupported("ENVELOPE MATERIALIZE over OCF (Avro files)")),
                    ),
                );
            }
            match &stmt.format {
                Some(Format::Avro(_)) => Ok(SourceEnvelope::CdcV2),
                _ => Err(
                    Step::Done(
                        Err(PlanError::unsupported("non-Avro-encoded ENVELOPE MATERIALIZE")),
                    ),
                ),
            }
        },
    }
}

/// The encoding of the records of a source under its envelope. With upsert the
/// key schema is dropped from it: it is not necessarily a part of the value schema.
pub open spec fn value_encoding(encoding: EncodingView, envelope: EnvelopeView) -> Result<
    EncodingView,
    ErrorView,
> {
    match envelope {
        EnvelopeView::Upsert(key) => match encoding {
            EncodingView::Avro { value_schema, registry, .. } => Ok(
                EncodingView::Avro { key_schema: None, value_schema, registry },
            ),
            EncodingView::Bytes | EncodingView::Text => if key is Avro {
                Err(unsupported("Avro key for this format"@))
            } else {
                Ok(encoding)
            },
            _ => Err(unsupported("upsert envelope for this format"@)),
        },
        _ => Ok(encoding),
    }
}

fn read_value_encoding(encoding: DataEncoding, envelope: &SourceEnvelope) -> (r: Result<
    DataEncoding,
    PlanError,
>)
    ensures
        viewed(r) == value_encoding(encoding@, envelope@),
{
    match envelope {
        SourceEnvelope::Upsert(key) => match encoding {
            DataEncoding::Avro { key_schema: _, value_schema, registry } => Ok(
                DataEncoding::Avro { key_schema: None, value_schema, registry },
            ),
            DataEncoding::Bytes | DataEncoding::Text => if matches!(key, DataEncoding::Avro { .. }) {
                Err(PlanError::unsupported("Avro key for this format"))
            } else {
                Ok(encoding)
            },
            _ => Err(PlanError::unsupported("upsert envelope for this format")),
        },
        _ => Ok(encoding),
    }
}

// The shape of a source.

/// Whether the columns that a connector adds to the data are part of the source.
pub open spec fn has_metadata(encoding: EncodingView, envelope: EnvelopeView) -> bool {
    encoding !is Avro && encoding !is Protobuf && envelope !is Debezium
}

/// The relation with columns added to it.
pub open spec fn with_columns(desc: RelationView, columns: Seq<(String, ColumnType)>) -> RelationView
    decreases columns.len(),
{
    if columns.len() == 0 {
        desc
    } else {
        with_columns(desc, columns.drop_last()).with_column(columns.last().0@, columns.last().1)
    }
}

fn append_columns(desc: RelationDesc, columns: &Vec<(String, ColumnType)>) -> (r: RelationDesc)
    ensures
        r@ == with_columns(desc@, columns@),
{
    let mut r = desc;
    let mut i: usize = 0;
    assert(columns@.take(0) =~= Seq::<(String, ColumnType)>::empty());
    while i < columns.len()
        invariant
            i <= columns.len(),
            r@ == with_columns(desc@, columns@.take(i as int)),
        decreases columns.len() - i,
    {
        r = r.with_column(columns[i].0.as_str(), columns[i].1);
        i = i + 1;
        assert(columns@.take(i as int).drop_last() =~= columns@.take(i - 1));
    }
    assert(columns@.take(i as int) =~= columns@);
    r
}

/// The shape of a source: what its encoding and its envelope make it, without
/// keys if so asked, with the names of the statement, and with the columns that
/// the connector adds.
pub open spec fn source_desc(
    stmt: CreateSourceStatement,
    connector: ConnectorView,
    encoding: EncodingView,
    envelope: EnvelopeView,
    replies: Replies,
) -> Result<RelationView, StepView<PlanView>> {
    match replies.source_desc {
        None => Err(StepView::Ask(QuestionView::SourceDesc { encoding, envelope })),
        Some(Err(e)) => Err(failed(e@)),
        Some(Ok(desc)) => match switch(
            settings(stmt.with_options@),
            "ignore_source_keys"@,
            "ignore_source_keys must be a boolean"@,
        ) {
            Err(e) => Err(failed(e)),
            Ok(ignore_source_keys) => match renamed(
                "source "@ + stmt.name.sql(),
                if ignore_source_keys {
                    desc@.without_keys()
                } else {
                    desc@
                },
                stmt.col_names@,
            ) {
                Err(e) => Err(failed(e)),
                Ok(desc) => if has_metadata(encoding, envelope) {
                    match replies.metadata_columns {
                        None => Err(StepView::Ask(QuestionView::MetadataColumns { connector })),
                        Some(columns) => Ok(with_columns(desc, columns@)),
                    }
                } else {
                    Ok(desc)
                },
            },
        },
    }
}

/// The plan for `CREATE SOURCE`.
pub open spec fn create_source(
    catalog: CatalogModel,
    stmt: CreateSourceStatement,
    replies: Replies,
) -> StepView<PlanView> {
    match ingest_of(stmt, replies) {
        Err(step) => step,
        Ok(ingest) => match envelope_of(catalog, stmt, ingest.encoding, replies) {
            Err(step) => step,
            Ok(envelope) => match value_encoding(ingest.encoding, envelope) {
                Err(e) => failed(e),
                Ok(encoding) => match source_desc(
                    stmt,
                    ingest.connector,
                    encoding,
                    envelope,
                    replies,
                ) {
                    Err(step) => step,
                    Ok(desc) => match item_name(stmt.name) {
                        Err(e) => failed(e),
                        Ok(name) => match replies.create_sql {
                            None => StepView::Ask(QuestionView::CreateSql),
                            Some(Err(e)) => failed(e@),
                            Some(Ok(create_sql)) => StepView::Done(
                                Ok(
                                    PlanView::CreateSource {
                                        name: allocated_name(catalog, name),
                                        source: SourceView {
                                            create_sql: create_sql@,
                                            connector: ingest.connector,
                                            encoding,
                                            envelope,
                                            consistency: ingest.consistency,
                                            ts_frequency: ingest.ts_frequency,
                                            desc,
                                        },
                                        if_not_exists: stmt.if_not_exists,
                                        materialized: stmt.materialized,
                                    },
                                ),
                            ),
                        },
                    },
                },
            },
        },
    }
}

/// Plans `CREATE SOURCE`.
pub fn handle_create_source<C: Catalog>(
    scx: &StatementContext<C>,
    stmt: &CreateSourceStatement,
    replies: &Replies,
) -> (step: Step<Plan>)
    requires
        is_pure(*stmt),
    ensures
        step@ == create_source(scx.catalog.model(), *stmt, *replies),
{
    let ingest = match read_ingest(stmt, replies) {
        Ok(ingest) => ingest,
        Err(step) => {
            return step;
        },
    };
    let envelope = match read_envelope(scx, stmt, &ingest.encoding, replies) {
        Ok(envelope) => envelope,
        Err(step) => {
            return step;
        },
    };
    let encoding = match read_value_encoding(ingest.encoding, &envelope) {
        Ok(encoding) => encoding,
        Err(e) => {
            return Step::Done(Err(e));
        },
    };

    let desc = match &replies.source_desc {
        None => {
            return Step::Ask(Question::SourceDesc { encoding, envelope });
        },
        Some(Err(e)) => {
            return Step::Done(Err(e.clone()));
        },
        Some(Ok(desc)) => desc.clone(),
    };
    let ignore_source_keys = match read_switch(
        &stmt.with_options,
        "ignore_source_keys",
        "ignore_source_keys must be a boolean",
    ) {
        Ok(on) => on,
        Err(e) => {
            return Step::Done(Err(e));
        },
    };
    let desc = if ignore_source_keys {
        desc.without_keys()
    } else {
        desc
    };
    let context = "source ".to_owned().concat(stmt.name.to_sql().as_str());
    let desc = match maybe_rename_columns(context.as_str(), desc, &stmt.col_names) {
        Ok(desc) => desc,
        Err(e) => {
            return Step::Done(Err(e));
        },
    };
    let has_metadata = match (&encoding, &envelope) {
        (DataEncoding::Avro { .. }, _)
        | (DataEncoding::Protobuf { .. }, _)
        | (_, SourceEnvelope::Debezium(_)) => false,
        _ => true,
    };
    let desc = if has_metadata {
        match &replies.metadata_columns {
            None => {
                return Step::Ask(Question::MetadataColumns { connector: ingest.connector });
            },
            Some(columns) => append_columns(desc, columns),
        }
    } else {
        desc
    };

    let name = match object_name(stmt.name.clone()) {
        Ok(name) => scx.allocate_name(name),
        Err(e) => {
            return Step::Done(Err(e));
        },
    };
    let create_sql = match &replies.create_sql {
        None => {
            return Step::Ask(Question::CreateSql);
        },
        Some(Err(e)) => {
            return Step::Done(Err(e.clone()));
        },
        Some(Ok(sql)) => sql.clone(),
    };
    Step::Done(
        Ok(
            Plan::CreateSource {
                name,
                source: Source {
                    create_sql,
                    connector: ingest.connector,
                    encoding,
                    envelope,
                    consistency: ingest.consistency,
                    ts_frequency: ingest.ts_frequency,
                    desc,
                },
                if_not_exists: stmt.if_not_exists,
                materialized: stmt.materialized,
            },
        ),
    )
}

} // verus!
