use vstd::prelude::*;

verus! {

/// Top-level configuration of a daemon.
#[derive(Clone, Debug)]
pub struct ClientConfig {
    pub node: Node,
    pub server: Server,
    pub sources: Vec<Source>,
    pub destinations: Vec<Destination>,
}

/// Where the daemon finds its server.
#[derive(Clone, Debug)]
pub struct Server {
    pub endpoint: String,
}

/// Identity and storage of a daemon node.
#[derive(Clone, Debug)]
pub struct Node {
    pub display_name: String,
    pub unique_id: String,
    pub storage_path: String,
    pub auth_token: String,
}

/// A source section; its serialized `type` tag is the variant's name in lower
/// case.
#[derive(Clone, Debug)]
pub enum Source {
    Sqlite_Connector(SqliteSourceConfig),
    Kafka(KafkaConfig),
    Snowflake(SnowflakeSourceConfig),
    Sqlite_Physical_Replication(SqlitePhysicalReplicationSourceConfig),
    Hello_World(HelloWorldSourceConfig),
    Excel_Connector(ExcelConfig),
    Postgres_Connector(PostgresConnectorConfig),
    Tagging_Transformer(TaggingTransformerConfig),
    Typecast_Transformer(TypecastTransformerConfig),
    Mysql_Connector(MysqlConnectorSourceConfig),
    File(FileSourceConfig),
}

/// A destination section; its serialized `type` tag is the variant's name in
/// lower case.
#[derive(Clone, Debug)]
pub enum Destination {
    Sqlite_Connector(SqliteDestinationConfig),
    Snowflake(SnowflakeDestinationConfig),
    Sqlite_Physical_Replication(SqlitePhysicalReplicationDestinationConfig),
    Hello_World(HelloWorldDestinationConfig),
    Kafka(KafkaDestinationConfig),
    Postgres_Connector(PostgresConnectorDestinationConfig),
    Mysql_Connector(MysqlConnectorDestinationConfig),
    File(FileDestinationConfig),
}

/// Shared between all source and destination definitions.
#[derive(Clone, Debug, Default)]
pub struct CommonAttrs {
    pub display_name: String,
}

#[derive(Clone, Debug, Default)]
pub struct SqliteSourceConfig {
    pub common_attrs: CommonAttrs,
    pub path: String,
    pub origin: String,
    pub query: String,
}

#[derive(Clone, Debug, Default)]
pub struct SqliteDestinationConfig {
    pub common_attrs: CommonAttrs,
    pub path: String,
    pub truncate: bool,
}

#[derive(Clone, Debug, Default)]
pub struct PostgresConnectorConfig {
    pub common_attrs: CommonAttrs,
    pub url: String,
    pub origin: String,
    pub query: String,
    pub poll_interval: u64,
}

#[derive(Clone, Debug, Default)]
pub struct ExcelConfig {
    pub common_attrs: CommonAttrs,
    pub path: String,
    pub sheets: String,
    pub strict: bool,
}

#[derive(Clone, Debug, Default)]
pub struct KafkaConfig {
    pub common_attrs: CommonAttrs,
    pub brokers: String,
}

#[derive(Clone, Debug, Default)]
pub struct SnowflakeSourceConfig {
    pub common_attrs: CommonAttrs,
    pub username: String,
    pub password: String,
    pub role: String,
    pub account_identifier: String,
    pub warehouse: String,
    pub database: String,
    pub schema: String,
    pub query: String,
    pub delay: u64,
}

#[derive(Clone, Debug, Default)]
pub struct SnowflakeDestinationConfig {
    pub common_attrs: CommonAttrs,
    pub username: String,
    pub password: String,
    pub role: String,
    pub account_identifier: String,
    pub warehouse: String,
    pub database: String,
    pub schema: String,
    pub truncate: bool,
}

#[derive(Clone, Debug, Default)]
pub struct SqlitePhysicalReplicationSourceConfig {
    pub common_attrs: CommonAttrs,
    pub journal_path: String,
}

#[derive(Clone, Debug, Default)]
pub struct HelloWorldSourceConfig {
    pub common_attrs: CommonAttrs,
    pub message: String,
    pub interval_milis: u64,
}

#[derive(Clone, Debug, Default)]
pub struct TaggingTransformerConfig {
    pub common_attrs: CommonAttrs,
    pub column: String,
    pub text: String,
}

#[derive(Clone, Debug, Default)]
pub struct TypecastTransformerConfig {
    pub common_attrs: CommonAttrs,
    pub column: String,
    pub target_type: String,
}

#[derive(Clone, Debug, Default)]
pub struct HelloWorldDestinationConfig {
    pub common_attrs: CommonAttrs,
}

#[derive(Clone, Debug, Default)]
pub struct KafkaDestinationConfig {
    pub common_attrs: CommonAttrs,
    pub brokers: String,
    pub topic: String,
}

#[derive(Clone, Debug, Default)]
pub struct SqlitePhysicalReplicationDestinationConfig {
    pub common_attrs: CommonAttrs,
    pub journal_path: String,
    pub database_path: String,
}

#[derive(Clone, Debug, Default)]
pub struct PostgresConnectorDestinationConfig {
    pub common_attrs: CommonAttrs,
    pub url: String,
    pub schema: String,
    pub truncate: bool,
}

#[derive(Clone, Debug, Default)]
pub struct MysqlConnectorSourceConfig {
    pub common_attrs: CommonAttrs,
    pub url: String,
    pub origin: String,
    pub query: String,
    pub poll_interval: i64,
}

#[derive(Clone, Debug, Default)]
pub struct FileSourceConfig {
    pub common_attrs: CommonAttrs,
    pub path: String,
}

#[derive(Clone, Debug, Default)]
pub struct MysqlConnectorDestinationConfig {
    pub common_attrs: CommonAttrs,
    pub url: String,
    pub truncate: bool,
}

#[derive(Clone, Debug, Default)]
pub struct FileDestinationConfig {
    pub common_attrs: CommonAttrs,
    pub path: String,
}

/// A daemon asks the server to register it.
#[derive(Debug)]
pub struct ProvisionDaemonRequest {
    pub unique_id: String,
    pub display_name: String,
}

/// The credentials that the server gives a registered daemon.
#[derive(Debug)]
pub struct ProvisionDaemonResponse {
    pub client_id: String,
    pub client_secret: String,
}

/// A daemon asks the server for a token.
#[derive(Debug)]
pub struct IssueTokenRequest {
    pub client_id: String,
}

/// A token that the server issued to a daemon.
#[derive(Debug)]
pub struct IssueTokenResponse {
    pub id: String,
    pub client_id: String,
}

} // verus!
