//! Where data come from and go to, and how they are encoded.
use vstd::prelude::*;
use vstd::string::*;

use crate::external::Duration;
use crate::names::text_option;
use crate::relation::{RelationDesc, RelationView};

verus! {

/// The addresses of Kafka brokers, which only the Kafka client looks into.
#[derive(Clone, Copy, PartialEq, Eq, Structural, Debug)]
pub struct KafkaAddrs {
    pub id: u64,
}

/// How to reach a schema registry, which only its client looks into.
#[derive(Clone, Copy, PartialEq, Eq, Structural, Debug)]
pub struct CcsrConfig {
    pub id: u64,
}

/// A region of AWS, or a custom one with the endpoint to reach it by.
#[derive(Debug)]
pub enum Region {
    Aws(String),
    Custom { name: String, endpoint: String },
}

/// The contents of a [`Region`].
#[verifier::ext_equal]
pub enum RegionView {
    Aws(Seq<char>),
    Custom { name: Seq<char>, endpoint: Seq<char> },
}

impl View for Region {
    type V = RegionView;

    open spec fn view(&self) -> RegionView {
        match self {
            Region::Aws(name) => RegionView::Aws(name@),
            Region::Custom { name, endpoint } => RegionView::Custom {
                name: name@,
                endpoint: endpoint@,
            },
        }
    }
}

/// The contents of a list of pairs of texts.
pub open spec fn text_pairs(list: Seq<(String, String)>) -> Seq<(Seq<char>, Seq<char>)> {
    list.map_values(|p: (String, String)| (p.0@, p.1@))
}

/// Copies a list of pairs of texts.
pub fn clone_pairs(list: &Vec<(String, String)>) -> (copy: Vec<(String, String)>)
    ensures
        text_pairs(copy@) == text_pairs(list@),
{
    let mut copy: Vec<(String, String)> = Vec::new();
    let mut i: usize = 0;
    while i < list.len()
        invariant
            i <= list.len(),
            copy.len() == i,
            forall|k: int|
                0 <= k < i ==> (#[trigger] copy@[k]).0@ == list@[k].0@ && copy@[k].1@
                    == list@[k].1@,
        decreases list.len() - i,
    {
        copy.push((list[i].0.clone(), list[i].1.clone()));
        i = i + 1;
    }
    assert(text_pairs(copy@) =~= text_pairs(list@));
    copy
}

/// Where a source has its data from.
#[derive(Debug)]
pub enum ExternalSourceConnector {
    Kafka {
        addrs: KafkaAddrs,
        topic: String,
        config_options: Vec<(String, String)>,
        /// The offset to start from, for each partition that has one.
        start_offsets: Vec<(i32, i64)>,
        group_id_prefix: Option<String>,
        enable_persistence: bool,
        /// The files that hold what was persisted, once there are any.
        persisted_files: Option<Vec<String>>,
    },
    Kinesis {
        stream_name: String,
        region: Region,
        access_key_id: Option<String>,
        secret_access_key: Option<String>,
        token: Option<String>,
    },
    File { path: String, tail: bool },
    AvroOcf { path: String, tail: bool },
}

/// The contents of an [`ExternalSourceConnector`].
#[verifier::ext_equal]
pub enum ConnectorView {
    Kafka {
        addrs: KafkaAddrs,
        topic: Seq<char>,
        config_options: Seq<(Seq<char>, Seq<char>)>,
        start_offsets: Seq<(i32, i64)>,
        group_id_prefix: Option<Seq<char>>,
        enable_persistence: bool,
        persisted_files: Option<Seq<Seq<char>>>,
    },
    Kinesis {
        stream_name: Seq<char>,
        region: RegionView,
        access_key_id: Option<Seq<char>>,
        secret_access_key: Option<Seq<char>>,
        token: Option<Seq<char>>,
    },
    File { path: Seq<char>, tail: bool },
    AvroOcf { path: Seq<char>, tail: bool },
}

impl View for ExternalSourceConnector {
    type V = ConnectorView;

    open spec fn view(&self) -> ConnectorView {
        match self {
            ExternalSourceConnector::Kafka {
                addrs,
                topic,
                config_options,
                start_offsets,
                group_id_prefix,
                enable_persistence,
                persisted_files,
            } => ConnectorView::Kafka {
                addrs: *addrs,
                topic: topic@,
                config_options: text_pairs(config_options@),
                start_offsets: start_offsets@,
                group_id_prefix: text_option(*group_id_prefix),
                enable_persistence: *enable_persistence,
                persisted_files: match persisted_files {
                    None => None,
                    Some(files) => Some(crate::text::texts(files@)),
                },
            },
            ExternalSourceConnector::Kinesis {
                stream_name,
                region,
                access_key_id,
                secret_access_key,
                token,
            } => ConnectorView::Kinesis {
                stream_name: stream_name@,
                region: region@,
                access_key_id: text_option(*access_key_id),
                secret_access_key: text_option(*secret_access_key),
                token: text_option(*token),
            },
            ExternalSourceConnector::File { path, tail } => ConnectorView::File {
                path: path@,
                tail: *tail,
            },
            ExternalSourceConnector::AvroOcf { path, tail } => ConnectorView::AvroOcf {
                path: path@,
                tail: *tail,
            },
        }
    }
}

/// How the data of a source are encoded.
#[derive(Debug)]
pub enum DataEncoding {
    AvroOcf { reader_schema: String },
    Avro { key_schema: Option<String>, value_schema: String, registry: Option<CcsrConfig> },
    Protobuf { descriptors: Vec<u8>, message_name: String },
    Csv { header_row: bool, n_cols: usize, delimiter: u8 },
    Regex { regex: String },
    Bytes,
    Text,
}

/// The contents of a [`DataEncoding`].
#[verifier::ext_equal]
pub enum EncodingView {
    AvroOcf { reader_schema: Seq<char> },
    Avro { key_schema: Option<Seq<char>>, value_schema: Seq<char>, registry: Option<CcsrConfig> },
    Protobuf { descriptors: Seq<u8>, message_name: Seq<char> },
    Csv { header_row: bool, n_cols: usize, delimiter: u8 },
    Regex { regex: Seq<char> },
    Bytes,
    Text,
}

impl View for DataEncoding {
    type V = EncodingView;

    open spec fn view(&self) -> EncodingView {
        match self {
            DataEncoding::AvroOcf { reader_schema } => EncodingView::AvroOcf {
                reader_schema: reader_schema@,
            },
            DataEncoding::Avro { key_schema, value_schema, registry } => EncodingView::Avro {
                key_schema: text_option(*key_schema),
                value_schema: value_schema@,
                registry: *registry,
            },
            DataEncoding::Protobuf { descriptors, message_name } => EncodingView::Protobuf {
                descriptors: descriptors@,
                message_name: message_name@,
            },
            DataEncoding::Csv { header_row, n_cols, delimiter } => EncodingView::Csv {
                header_row: *header_row,
                n_cols: *n_cols,
                delimiter: *delimiter,
            },
            DataEncoding::Regex { regex } => EncodingView::Regex { regex: regex@ },
            DataEncoding::Bytes => EncodingView::Bytes,
            DataEncoding::Text => EncodingView::Text,
        }
    }
}

impl Clone for DataEncoding {
    fn clone(&self) -> (copy: DataEncoding)
        ensures
            copy@ == self@,
    {
        match self {
            DataEncoding::AvroOcf { reader_schema } => DataEncoding::AvroOcf {
                reader_schema: reader_schema.clone(),
            },
            DataEncoding::Avro { key_schema, value_schema, registry } => DataEncoding::Avro {
                key_schema: match key_schema {
                    Some(schema) => Some(schema.clone()),
                    None => None,
                },
                value_schema: value_schema.clone(),
                registry: *registry,
            },
            DataEncoding::Protobuf { descriptors, message_name } => {
                let copied = descriptors.clone();
                assert(copied@ =~= descriptors@);
                DataEncoding::Protobuf { descriptors: copied, message_name: message_name.clone() }
            },
            DataEncoding::Csv { header_row, n_cols, delimiter } => DataEncoding::Csv {
                header_row: *header_row,
                n_cols: *n_cols,
                delimiter: *delimiter,
            },
            DataEncoding::Regex { regex } => DataEncoding::Regex { regex: regex.clone() },
            DataEncoding::Bytes => DataEncoding::Bytes,
            DataEncoding::Text => DataEncoding::Text,
        }
    }
}

/// How records that come more than once are told from new ones.
#[derive(Clone, Copy, PartialEq, Eq, Structural, Debug)]
pub enum DebeziumDeduplicationStrategy {
    /// By their place in the order.
    Ordered,
    /// By remembering every record.
    Full,
}

/// What the records of a source mean.
#[derive(Debug)]
pub enum SourceEnvelope {
    NoEnvelope,
    Debezium(DebeziumDeduplicationStrategy),
    /// Records replace earlier ones of the same key, which is encoded like this.
    Upsert(DataEncoding),
    CdcV2,
}

/// The contents of a [`SourceEnvelope`].
#[verifier::ext_equal]
pub enum EnvelopeView {
    NoEnvelope,
    Debezium(DebeziumDeduplicationStrategy),
    Upsert(EncodingView),
    CdcV2,
}

impl View for SourceEnvelope {
    type V = EnvelopeView;

    open spec fn view(&self) -> EnvelopeView {
        match self {
            SourceEnvelope::NoEnvelope => EnvelopeView::NoEnvelope,
            SourceEnvelope::Debezium(strategy) => EnvelopeView::Debezium(*strategy),
            SourceEnvelope::Upsert(encoding) => EnvelopeView::Upsert(encoding@),
            SourceEnvelope::CdcV2 => EnvelopeView::CdcV2,
        }
    }
}

/// Where the timestamps of a source come from.
#[derive(Debug)]
pub enum Consistency {
    RealTime,
    /// From a topic of this name.
    BringYourOwn(String),
}

/// The contents of a [`Consistency`].
#[verifier::ext_equal]
pub enum ConsistencyView {
    RealTime,
    BringYourOwn(Seq<char>),
}

impl View for Consistency {
    type V = ConsistencyView;

    open spec fn view(&self) -> ConsistencyView {
        match self {
            Consistency::RealTime => ConsistencyView::RealTime,
            Consistency::BringYourOwn(topic) => ConsistencyView::BringYourOwn(topic@),
        }
    }
}

/// A source.
#[derive(Debug)]
pub struct Source {
    pub create_sql: String,
    pub connector: ExternalSourceConnector,
    pub encoding: DataEncoding,
    pub envelope: SourceEnvelope,
    pub consistency: Consistency,
    pub ts_frequency: Duration,
    pub desc: RelationDesc,
}

/// The contents of a [`Source`].
#[verifier::ext_equal]
pub struct SourceView {
    pub create_sql: Seq<char>,
    pub connector: ConnectorView,
    pub encoding: EncodingView,
    pub envelope: EnvelopeView,
    pub consistency: ConsistencyView,
    pub ts_frequency: Duration,
    pub desc: RelationView,
}

impl View for Source {
    type V = SourceView;

    open spec fn view(&self) -> SourceView {
        SourceView {
            create_sql: self.create_sql@,
            connector: self.connector@,
            encoding: self.encoding@,
            envelope: self.envelope@,
            consistency: self.consistency@,
            ts_frequency: self.ts_frequency,
            desc: self.desc@,
        }
    }
}

/// How to make the place that a sink writes to.
#[derive(Debug)]
pub enum SinkConnectorBuilder {
    Kafka {
        broker_addrs: KafkaAddrs,
        schema_registry_url: String,
        value_schema: String,
        topic_prefix: String,
        topic_suffix: String,
        replication_factor: u32,
        fuel: usize,
        consistency_value_schema: Option<String>,
    },
    AvroOcf { path: String, file_name_suffix: String },
}

/// The contents of a [`SinkConnectorBuilder`].
#[verifier::ext_equal]
pub enum SinkBuilderView {
    Kafka {
        broker_addrs: KafkaAddrs,
        schema_registry_url: Seq<char>,
        value_schema: Seq<char>,
        topic_prefix: Seq<char>,
        topic_suffix: Seq<char>,
        replication_factor: u32,
        fuel: usize,
        consistency_value_schema: Option<Seq<char>>,
    },
    AvroOcf { path: Seq<char>, file_name_suffix: Seq<char> },
}

impl View for SinkConnectorBuilder {
    type V = SinkBuilderView;

    open spec fn view(&self) -> SinkBuilderView {
        match self {
            SinkConnectorBuilder::Kafka {
                broker_addrs,
                schema_registry_url,
                value_schema,
                topic_prefix,
                topic_suffix,
                replication_factor,
                fuel,
                consistency_value_schema,
            } => SinkBuilderView::Kafka {
                broker_addrs: *broker_addrs,
                schema_registry_url: schema_registry_url@,
                value_schema: value_schema@,
                topic_prefix: topic_prefix@,
                topic_suffix: topic_suffix@,
                replication_factor: *replication_factor,
                fuel: *fuel,
                consistency_value_schema: text_option(*consistency_value_schema),
            },
            SinkConnectorBuilder::AvroOcf { path, file_name_suffix } => SinkBuilderView::AvroOcf {
                path: path@,
                file_name_suffix: file_name_suffix@,
            },
        }
    }
}

} // verus!
