//! Planning of `CREATE SINK`.
use vstd::prelude::*;
use vstd::string::*;

use crate::ast::{AvroSchema, Connector, CreateSinkStatement, Format};
use crate::catalog::{Catalog, CatalogModel};
use crate::context::{allocated_name, item_of, StatementContext};
use crate::dataflow::{SinkBuilderView, SinkConnectorBuilder};
use crate::engine::{failed, stepped, Question, QuestionView, Replies, Step, StepView};
use crate::error::{invalid, unsupported, viewed, ErrorKind, ErrorView, PlanError};
use crate::external::{parse_url, url_of};
use crate::names::text_option;
use crate::normalize::{item_name, object_name};
use crate::number::{int_error_message, parse_u32, read_unsigned};
use crate::plan::{Plan, PlanView, Sink};
use crate::query::{as_of_time, eval_as_of};
use crate::relation::{RelationDesc, RelationView};
use crate::source::parsed_text;
use crate::text::{decimal, u64_text};
use crate::value::{read_switch, setting, settings, switch, SqlOption, Value, ValueView};

verus! {

/// The text for the URL of the registry of a Kafka sink: the format is Avro by
/// a schema registry, without a seed and without options.
pub open spec fn registry_url_text(format: Option<Format>) -> Result<Seq<char>, ErrorView> {
    match format {
        Some(Format::Avro(AvroSchema::CsrUrl { url, seed, with_options })) => if seed is Some {
            Err(invalid("SEED option does not make sense with sinks"@))
        } else if with_options@.len() > 0 {
            Err(unsupported("CONFLUENT SCHEMA REGISTRY ... WITH options in CREATE SINK"@))
        } else {
            Ok(url@)
        },
        _ => Err(unsupported("non-confluent schema registry avro sinks"@)),
    }
}

fn read_registry_url_text(format: &Option<Format>) -> (r: Result<String, PlanError>)
    ensures
        viewed(r) == registry_url_text(*format),
{
    match format {
        Some(Format::Avro(AvroSchema::CsrUrl { url, seed, with_options })) => {
            if seed.is_some() {
                return Err(
                    PlanError::invalid("SEED option does not make sense with sinks".to_owned()),
                );
            }
            if with_options.len() > 0 {
                return Err(
                    PlanError::unsupported(
                        "CONFLUENT SCHEMA REGISTRY ... WITH options in CREATE SINK",
                    ),
                );
            }
            Ok(url.clone())
        },
        _ => Err(PlanError::unsupported("non-confluent schema registry avro sinks")),
    }
}

/// How many copies of a topic there are: one by default, and never none.
pub open spec fn replication_factor(options: Map<Seq<char>, ValueView>) -> Result<nat, ErrorView> {
    if !options.contains_key("replication_factor"@) {
        Ok(1)
    } else {
        match options["replication_factor"@] {
            ValueView::Number(digits) => match read_unsigned(digits, u32::MAX as nat) {
                Ok(n) => if n == 0 {
                    Err(
                        invalid("replication factor for sink topics has to be greater than zero"@),
                    )
                } else {
                    Ok(n)
                },
                Err(e) => Err(ErrorView { kind: ErrorKind::Integer, text: int_error_message(e) }),
            },
            _ => Err(
                invalid("replication factor for sink topics has to be a positive integer"@),
            ),
        }
    }
}

fn read_replication_factor(with_options: &Vec<SqlOption>) -> (r: Result<u32, PlanError>)
    ensures
        match r {
            Ok(n) => replication_factor(settings(with_options@)) == Ok::<nat, ErrorView>(n as nat),
            Err(e) => replication_factor(settings(with_options@)) == Err::<nat, ErrorView>(e@),
        },
{
    match setting(with_options, "replication_factor") {
        None => Ok(1),
        Some(Value::Number(digits)) => match parse_u32(digits.as_str()) {
            Ok(n) => {
                if n == 0 {
                    return Err(
                        PlanError::invalid(
                            "replication factor for sink topics has to be greater than zero".to_owned(),
                        ),
                    );
                }
                Ok(n)
            },
            Err(e) => Err(PlanError { kind: ErrorKind::Integer, text: e.message() }),
        },
        Some(_) => Err(
            PlanError::invalid(
                "replication factor for sink topics has to be a positive integer".to_owned(),
            ),
        ),
    }
}

/// The topic that a sink writes to, with what is made of the URL of the registry.
pub open spec fn kafka_topic(
    parsed: Result<Seq<char>, Seq<char>>,
    options: Map<Seq<char>, ValueView>,
    broker: Seq<char>,
    topic_prefix: Seq<char>,
    desc: RelationView,
    topic_suffix: Seq<char>,
    replies: Replies,
) -> Result<SinkBuilderView, StepView<PlanView>> {
    match parsed {
        Err(e) => Err(failed(ErrorView { kind: ErrorKind::Url, text: e })),
        Ok(schema_registry_url) => match replies.kafka_addrs {
            None => Err(StepView::Ask(QuestionView::KafkaAddrs { broker })),
            Some(Err(e)) => Err(failed(e@)),
            Some(Ok(broker_addrs)) => match switch(
                options,
                "consistency"@,
                "consistency must be a boolean"@,
            ) {
                Err(e) => Err(failed(e)),
                Ok(include_consistency) => match replies.sink_schema {
                    None => Err(
                        StepView::Ask(QuestionView::SinkSchema { desc, include_consistency }),
                    ),
                    Some(value_schema) => match replication_factor(options) {
                        Err(e) => Err(failed(e)),
                        Ok(n) => if include_consistency && replies.transaction_schema is None {
                            Err(StepView::Ask(QuestionView::TransactionSchema))
                        } else {
                            Ok(
                                SinkBuilderView::Kafka {
                                    broker_addrs,
                                    schema_registry_url,
                                    value_schema: value_schema@,
                                    topic_prefix,
                                    topic_suffix,
                                    replication_factor: n as u32,
                                    fuel: 10000,
                                    consistency_value_schema: if include_consistency {
                                        text_option(replies.transaction_schema)
                                    } else {
                                        None
                                    },
                                },
                            )
                        },
                    },
                },
            },
        },
    }
}

/// The topic that a sink writes to, with what is made of the URL of the registry.
pub fn build_kafka_topic(
    parsed: Result<String, String>,
    with_options: &Vec<SqlOption>,
    broker: &str,
    topic_prefix: &str,
    desc: &RelationDesc,
    topic_suffix: String,
    replies: &Replies,
) -> (r: Result<SinkConnectorBuilder, Step<Plan>>)
    ensures
        stepped(r) == kafka_topic(
            parsed_text(parsed),
            settings(with_options@),
            broker@,
            topic_prefix@,
            desc@,
            topic_suffix@,
            *replies,
        ),
{
    let schema_registry_url = match parsed {
        Ok(url) => url,
        Err(text) => {
            return Err(Step::Done(Err(PlanError { kind: ErrorKind::Url, text })));
        },
    };
    let broker_addrs = match &replies.kafka_addrs {
        None => {
            return Err(Step::Ask(Question::KafkaAddrs { broker: broker.to_owned() }));
        },
        Some(Err(e)) => {
            return Err(Step::Done(Err(e.clone())));
        },
        Some(Ok(addrs)) => *addrs,
    };
    let include_consistency = match read_switch(
        with_options,
        "consistency",
        "consistency must be a boolean",
    ) {
        Ok(on) => on,
        Err(e) => {
            return Err(Step::Done(Err(e)));
        },
    };
    let value_schema = match &replies.sink_schema {
        None => {
            return Err(
                Step::Ask(Question::SinkSchema { desc: desc.clone(), include_consistency }),
            );
        },
        Some(schema) => schema.clone(),
    };
    let replication_factor: u32 = match read_replication_factor(with_options) {
        Ok(n) => n,
        Err(e) => {
            return Err(Step::Done(Err(e)));
        },
    };
    let consistency_value_schema = if include_consistency {
        match &replies.transaction_schema {
            None => {
                return Err(Step::Ask(Question::TransactionSchema));
            },
            Some(schema) => Some(schema.clone()),
        }
    } else {
        None
    };
    Ok(
        SinkConnectorBuilder::Kafka {
            broker_addrs,
            schema_registry_url,
            value_schema,
            topic_prefix: topic_prefix.to_owned(),
            topic_suffix,
            replication_factor,
            fuel: 10000,
            consistency_value_schema,
        },
    )
}

/// The topic that a sink writes to.
pub open spec fn kafka_builder(
    format: Option<Format>,
    options: Map<Seq<char>, ValueView>,
    broker: Seq<char>,
    topic_prefix: Seq<char>,
    desc: RelationView,
    topic_suffix: Seq<char>,
    replies: Replies,
) -> Result<SinkBuilderView, StepView<PlanView>> {
    match registry_url_text(format) {
        Err(e) => Err(failed(e)),
        Ok(url) => kafka_topic(
            url_of(url),
            options,
            broker,
            topic_prefix,
            desc,
            topic_suffix,
            replies,
        ),
    }
}

/// The topic that a sink writes to.
pub fn kafka_sink_builder(
    format: &Option<Format>,
    with_options: &Vec<SqlOption>,
    broker: &str,
    topic_prefix: &str,
    desc: &RelationDesc,
    topic_suffix: String,
    replies: &Replies,
) -> (r: Result<SinkConnectorBuilder, Step<Plan>>)
    ensures
        stepped(r) == kafka_builder(
            *format,
            settings(with_options@),
            broker@,
            topic_prefix@,
            desc@,
            topic_suffix@,
            *replies,
        ),
{
    match read_registry_url_text(format) {
        Ok(url) => build_kafka_topic(
            parse_url(url.as_str()),
            with_options,
            broker,
            topic_prefix,
            desc,
            topic_suffix,
            replies,
        ),
        Err(e) => Err(Step::Done(Err(e))),
    }
}

/// The Avro container file that a sink writes to.
pub open spec fn avro_ocf_builder(
    format: Option<Format>,
    with_options: Seq<SqlOption>,
    path: Seq<char>,
    file_name_suffix: Seq<char>,
    replies: Replies,
) -> Result<SinkBuilderView, StepView<PlanView>> {
    if format is Some {
        Err(failed(invalid("avro ocf sinks cannot specify a format"@)))
    } else if with_options.len() > 0 {
        Err(failed(invalid("avro ocf sinks do not support WITH options"@)))
    } else {
        match replies.is_directory {
            None => Err(StepView::Ask(QuestionView::IsDirectory { path })),
            Some(true) => Err(failed(invalid("avro ocf sink cannot write to a directory"@))),
            Some(false) => Ok(SinkBuilderView::AvroOcf { path, file_name_suffix }),
        }
    }
}

/// The Avro container file that a sink writes to.
pub fn avro_ocf_sink_builder(
    format: &Option<Format>,
    with_options: &Vec<SqlOption>,
    path: &str,
    file_name_suffix: String,
    replies: &Replies,
) -> (r: Result<SinkConnectorBuilder, Step<Plan>>)
    ensures
        stepped(r) == avro_ocf_builder(
            *format,
            with_options@,
            path@,
            file_name_suffix@,
            *replies,
        ),
{
    if format.is_some() {
        return Err(
            Step::Done(Err(PlanError::invalid("avro ocf sinks cannot specify a format".to_owned()))),
        );
    }
    if with_options.len() > 0 {
        return Err(
            Step::Done(
                Err(PlanError::invalid("avro ocf sinks do not support WITH options".to_owned())),
            ),
        );
    }
    match replies.is_directory {
        None => Err(Step::Ask(Question::IsDirectory { path: path.to_owned() })),
        Some(true) => Err(
            Step::Done(
                Err(PlanError::invalid("avro ocf sink cannot write to a directory".to_owned())),
            ),
        ),
        Some(false) => Ok(SinkConnectorBuilder::AvroOcf { path: path.to_owned(), file_name_suffix }),
    }
}

/// What tells the places that this run of the system writes to from others.
pub open spec fn run_suffix(catalog: CatalogModel) -> Result<Seq<char>, ErrorView> {
    if catalog.startup_secs < 0 {
        Err(
            ErrorView {
                kind: ErrorKind::Clock,
                text: "second time provided was later than self"@,
            },
        )
    } else {
        Ok(decimal(catalog.startup_secs as nat) + "-"@ + decimal(catalog.nonce as nat))
    }
}

fn make_run_suffix<C: Catalog>(scx: &StatementContext<C>) -> (r: Result<String, PlanError>)
    ensures
        viewed(r) == run_suffix(scx.catalog.model()),
{
    let secs: i64 = scx.catalog.startup_time();
    if secs < 0 {
        return Err(
            PlanError {
                kind: ErrorKind::Clock,
                text: "second time provided was later than self".to_owned(),
            },
        );
    }
    Ok(u64_text(secs as u64).concat("-").concat(u64_text(scx.catalog.nonce()).as_str()))
}

/// The place that a sink writes to.
pub open spec fn sink_builder(
    stmt: CreateSinkStatement,
    desc: Result<RelationDesc, PlanError>,
    suffix: Seq<char>,
    replies: Replies,
) -> Result<SinkBuilderView, StepView<PlanView>> {
    match stmt.connector {
        Connector::File { .. } => Err(failed(unsupported("file sinks"@))),
        Connector::Kinesis { .. } => Err(failed(unsupported("Kinesis sinks"@))),
        Connector::Kafka { broker, topic } => match desc {
            Err(e) => Err(failed(e@)),
            Ok(desc) => kafka_builder(
                stmt.format,
                settings(stmt.with_options@),
                broker@,
                topic@,
                desc@,
                suffix,
                replies,
            ),
        },
        Connector::AvroOcf { path } => avro_ocf_builder(
            stmt.format,
            stmt.with_options@,
            path@,
            suffix,
            replies,
        ),
    }
}

fn make_sink_builder(
    stmt: &CreateSinkStatement,
    desc: &Result<RelationDesc, PlanError>,
    suffix: String,
    replies: &Replies,
) -> (r: Result<SinkConnectorBuilder, Step<Plan>>)
    ensures
        stepped(r) == sink_builder(*stmt, *desc, suffix@, *replies),
{
    match &stmt.connector {
        Connector::File { .. } => Err(Step::Done(Err(PlanError::unsupported("file sinks")))),
        Connector::Kinesis { .. } => Err(Step::Done(Err(PlanError::unsupported("Kinesis sinks")))),
        Connector::Kafka { broker, topic } => match desc {
            Err(e) => Err(Step::Done(Err(e.clone()))),
            Ok(desc) => kafka_sink_builder(
                &stmt.format,
                &stmt.with_options,
                broker.as_str(),
                topic.as_str(),
                desc,
                suffix,
                replies,
            ),
        },
        Connector::AvroOcf { path } => avro_ocf_sink_builder(
            &stmt.format,
            &stmt.with_options,
            path.as_str(),
            suffix,
            replies,
        ),
    }
}

/// The plan for `CREATE SINK`.
pub open spec fn create_sink(
    catalog: CatalogModel,
    stmt: CreateSinkStatement,
    replies: Replies,
) -> StepView<PlanView> {
    match replies.create_sql {
        None => StepView::Ask(QuestionView::CreateSql),
        Some(Err(e)) => failed(e@),
        Some(Ok(create_sql)) => match (
            item_name(stmt.name),
            item_of(catalog, stmt.from),
            run_suffix(catalog),
            as_of_time(stmt.as_of, replies),
        ) {
            (Err(e), _, _, _) => failed(e),
            (_, Err(e), _, _) => failed(e),
            (_, _, Err(e), _) => failed(e),
            (_, _, _, Err(step)) => step,
            (Ok(name), Ok(from), Ok(suffix), Ok(as_of)) => {
                let entry = catalog.items[from];
                match sink_builder(stmt, entry.desc, suffix, replies) {
                    Err(step) => step,
                    Ok(connector_builder) => StepView::Done(
                        Ok(
                            PlanView::CreateSink {
                                name: allocated_name(catalog, name),
                                create_sql: create_sql@,
                                from: entry.id,
                                connector_builder,
                                with_snapshot: stmt.with_snapshot,
                                as_of,
                                if_not_exists: stmt.if_not_exists,
                            },
                        ),
                    ),
                }
            },
        },
    }
}

/// Plans `CREATE SINK`.
pub fn handle_create_sink<C: Catalog>(
    scx: &StatementContext<C>,
    stmt: &CreateSinkStatement,
    replies: &Replies,
) -> (step: Step<Plan>)
    ensures
        step@ == create_sink(scx.catalog.model(), *stmt, *replies),
{
    let create_sql = match &replies.create_sql {
        None => {
            return Step::Ask(Question::CreateSql);
        },
        Some(Err(e)) => {
            return Step::Done(Err(e.clone()));
        },
        Some(Ok(sql)) => sql.clone(),
    };
    let name = match object_name(stmt.name.clone()) {
        Ok(name) => scx.allocate_name(name),
        Err(e) => {
            return Step::Done(Err(e));
        },
    };
    let from = match scx.resolve_item(stmt.from.clone()) {
        Ok(from) => scx.catalog.get_item(&from),
        Err(e) => {
            return Step::Done(Err(e));
        },
    };
    let suffix = match make_run_suffix(scx) {
        Ok(suffix) => suffix,
        Err(e) => {
            return Step::Done(Err(e));
        },
    };
    let as_of = match eval_as_of(&stmt.as_of, replies) {
        Ok(as_of) => as_of,
        Err(step) => {
            return step;
        },
    };
    let connector_builder = match make_sink_builder(stmt, &from.desc, suffix, replies) {
        Ok(builder) => builder,
        Err(step) => {
            return step;
        },
    };
    Step::Done(
        Ok(
            Plan::CreateSink {
                name,
                sink: Sink { create_sql, from: from.id, connector_builder },
                with_snapshot: stmt.with_snapshot,
                as_of,
                if_not_exists: stmt.if_not_exists,
            },
        ),
    )
}

} // verus!
