use rrbuild::catalog::PluginCatalog;
use rrbuild::std_plugins::PluginsList;

const NAMES: [&str; 33] = [
    "AMQP", "Beanstalk", "BoltDB", "Broadcast", "Config", "FileServer", "GRPC", "HTTP",
    "Informer", "Jobs", "KV", "Logger", "Memcached", "Memory", "Metrics", "NATS", "Redis",
    "Reload", "Resetter", "RPC", "Server", "Service", "SQS", "Status", "TCP", "Cache", "Gzip",
    "Headers", "NewRelic", "Prometheus", "Send", "Static", "WebSockets",
];

fn all_plugins() -> Vec<PluginsList> {
    let s = || "dir".to_string();
    vec![
        PluginsList::AMQP(s()),
        PluginsList::Beanstalk(s()),
        PluginsList::BoltDB(s()),
        PluginsList::Broadcast(s()),
        PluginsList::Config(s()),
        PluginsList::FileServer(s()),
        PluginsList::GRPC(s()),
        PluginsList::HTTP(s()),
        PluginsList::Informer(s()),
        PluginsList::Jobs(s()),
        PluginsList::KV(s()),
        PluginsList::Logger(s()),
        PluginsList::Memcached(s()),
        PluginsList::Memory(s()),
        PluginsList::Metrics(s()),
        PluginsList::NATS(s()),
        PluginsList::Redis(s()),
        PluginsList::Reload(s()),
        PluginsList::Resetter(s()),
        PluginsList::RPC(s()),
        PluginsList::Server(s()),
        PluginsList::Service(s()),
        PluginsList::SQS(s()),
        PluginsList::Status(s()),
        PluginsList::TCP(s()),
        PluginsList::Cache(s()),
        PluginsList::Gzip(s()),
        PluginsList::Headers(s()),
        PluginsList::NewRelic(s()),
        PluginsList::Prometheus(s()),
        PluginsList::Send(s()),
        PluginsList::Static(s()),
        PluginsList::WebSockets(s()),
    ]
}

#[test]
fn catalog_lists_the_standard_names_in_order() {
    let catalog = PluginCatalog::new();
    let names: Vec<&str> = catalog.all_names().iter().map(|s| s.as_str()).collect();
    assert_eq!(names, NAMES.to_vec());
}

#[test]
fn catalog_names_can_be_listed_again() {
    let catalog = PluginCatalog::new();
    assert_eq!(catalog.all_names(), catalog.all_names());
    assert_eq!(catalog.all_names().len(), 33);
}

#[test]
fn catalog_contains_each_of_its_names() {
    let catalog = PluginCatalog::new();
    for name in NAMES {
        assert!(catalog.contains(name), "{}", name);
    }
}

#[test]
fn catalog_refuses_other_names() {
    let catalog = PluginCatalog::new();
    for name in ["", "Bolt", "http", "HTTP ", " HTTP", "HTTPS", "amqp", "WebSocket", "myplugin"] {
        assert!(!catalog.contains(name), "{:?}", name);
    }
}

#[test]
fn catalog_names_are_distinct_and_not_empty() {
    let catalog = PluginCatalog::new();
    let names = catalog.all_names();
    for i in 0..names.len() {
        assert!(!names[i].is_empty());
        for j in 0..i {
            assert_ne!(names[i], names[j]);
        }
    }
}

#[test]
fn two_catalogs_hold_the_same() {
    assert_eq!(PluginCatalog::new().all_names(), PluginCatalog::new().all_names());
}

#[test]
fn each_plugin_has_its_catalog_name() {
    let catalog = PluginCatalog::new();
    let plugins = all_plugins();
    assert_eq!(plugins.len(), 33);
    for (i, plugin) in plugins.iter().enumerate() {
        assert_eq!(plugin.name(), NAMES[i]);
        assert_eq!(plugin.name(), catalog.all_names()[i]);
        assert!(catalog.contains(plugin.name()));
    }
}

#[test]
fn selecting_a_plugin_changes_nothing() {
    let plugin = PluginsList::Beanstalk("dir".to_string());
    plugin.GetPlugin();
    assert_eq!(plugin.name(), "Beanstalk");
    match plugin {
        PluginsList::Beanstalk(setting) => assert_eq!(setting, "dir"),
        _ => unreachable!(),
    }
}
