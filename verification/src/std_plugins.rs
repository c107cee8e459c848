//! The standard plugins, one variant each.

use crate::catalog::{is_standard_name, standard_names};
use vstd::prelude::*;

verus! {

/// A standard plugin together with the text it is set up with. The variants
/// stand in catalog order: the server's own plugins, then the HTTP
/// middleware.
#[derive(Debug)]
pub enum PluginsList {
    AMQP(String),
    Beanstalk(String),
    BoltDB(String),
    Broadcast(String),
    Config(String),
    FileServer(String),
    GRPC(String),
    HTTP(String),
    Informer(String),
    Jobs(String),
    KV(String),
    Logger(String),
    Memcached(String),
    Memory(String),
    Metrics(String),
    NATS(String),
    Redis(String),
    Reload(String),
    Resetter(String),
    RPC(String),
    Server(String),
    Service(String),
    SQS(String),
    Status(String),
    TCP(String),
    // middleware
    Cache(String),
    Gzip(String),
    Headers(String),
    NewRelic(String),
    Prometheus(String),
    Send(String),
    Static(String),
    WebSockets(String),
}

impl PluginsList {
    /// Where the plugin stands in the catalog.
    pub open spec fn position(&self) -> int {
        match *self {
            PluginsList::AMQP(_) => 0,
            PluginsList::Beanstalk(_) => 1,
            PluginsList::BoltDB(_) => 2,
            PluginsList::Broadcast(_) => 3,
            PluginsList::Config(_) => 4,
            PluginsList::FileServer(_) => 5,
            PluginsList::GRPC(_) => 6,
            PluginsList::HTTP(_) => 7,
            PluginsList::Informer(_) => 8,
            PluginsList::Jobs(_) => 9,
            PluginsList::KV(_) => 10,
            PluginsList::Logger(_) => 11,
            PluginsList::Memcached(_) => 12,
            PluginsList::Memory(_) => 13,
            PluginsList::Metrics(_) => 14,
            PluginsList::NATS(_) => 15,
            PluginsList::Redis(_) => 16,
            PluginsList::Reload(_) => 17,
            PluginsList::Resetter(_) => 18,
            PluginsList::RPC(_) => 19,
            PluginsList::Server(_) => 20,
            PluginsList::Service(_) => 21,
            PluginsList::SQS(_) => 22,
            PluginsList::Status(_) => 23,
            PluginsList::TCP(_) => 24,
            PluginsList::Cache(_) => 25,
            PluginsList::Gzip(_) => 26,
            PluginsList::Headers(_) => 27,
            PluginsList::NewRelic(_) => 28,
            PluginsList::Prometheus(_) => 29,
            PluginsList::Send(_) => 30,
            PluginsList::Static(_) => 31,
            PluginsList::WebSockets(_) => 32,
        }
    }

    /// The plugin's name, as the catalog lists it.
    pub fn name(&self) -> (name: &'static str)
        ensures
            name@ == standard_names()[self.position()],
            is_standard_name(name@),
    {
        let name = match self {
            PluginsList::AMQP(_) => "AMQP",
            PluginsList::Beanstalk(_) => "Beanstalk",
            PluginsList::BoltDB(_) => "BoltDB",
            PluginsList::Broadcast(_) => "Broadcast",
            PluginsList::Config(_) => "Config",
            PluginsList::FileServer(_) => "FileServer",
            PluginsList::GRPC(_) => "GRPC",
            PluginsList::HTTP(_) => "HTTP",
            PluginsList::Informer(_) => "Informer",
            PluginsList::Jobs(_) => "Jobs",
            PluginsList::KV(_) => "KV",
            PluginsList::Logger(_) => "Logger",
            PluginsList::Memcached(_) => "Memcached",
            PluginsList::Memory(_) => "Memory",
            PluginsList::Metrics(_) => "Metrics",
            PluginsList::NATS(_) => "NATS",
            PluginsList::Redis(_) => "Redis",
            PluginsList::Reload(_) => "Reload",
            PluginsList::Resetter(_) => "Resetter",
            PluginsList::RPC(_) => "RPC",
            PluginsList::Server(_) => "Server",
            PluginsList::Service(_) => "Service",
            PluginsList::SQS(_) => "SQS",
            PluginsList::Status(_) => "Status",
            PluginsList::TCP(_) => "TCP",
            PluginsList::Cache(_) => "Cache",
            PluginsList::Gzip(_) => "Gzip",
            PluginsList::Headers(_) => "Headers",
            PluginsList::NewRelic(_) => "NewRelic",
            PluginsList::Prometheus(_) => "Prometheus",
            PluginsList::Send(_) => "Send",
            PluginsList::Static(_) => "Static",
            PluginsList::WebSockets(_) => "WebSockets",
        };
        assert(0 <= self.position() < standard_names().len());
        name
    }

    /// Selects the plugin. Selecting has no effect of its own: which plugins
    /// are built is decided when a request is resolved.
    #[allow(non_snake_case)]
    pub fn GetPlugin(&self) {
    }
}

} // verus!
