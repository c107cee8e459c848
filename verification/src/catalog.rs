//! The standard plugins that the tool knows by name.

use crate::text::{str_eq, texts};
use vstd::prelude::*;

verus! {

/// The names of the standard plugins, in catalog order: the server's own
/// plugins first, then the HTTP middleware.
pub open spec fn standard_names() -> Seq<Seq<char>> {
    seq![
        "AMQP"@,
        "Beanstalk"@,
        "BoltDB"@,
        "Broadcast"@,
        "Config"@,
        "FileServer"@,
        "GRPC"@,
        "HTTP"@,
        "Informer"@,
        "Jobs"@,
        "KV"@,
        "Logger"@,
        "Memcached"@,
        "Memory"@,
        "Metrics"@,
        "NATS"@,
        "Redis"@,
        "Reload"@,
        "Resetter"@,
        "RPC"@,
        "Server"@,
        "Service"@,
        "SQS"@,
        "Status"@,
        "TCP"@,
        "Cache"@,
        "Gzip"@,
        "Headers"@,
        "NewRelic"@,
        "Prometheus"@,
        "Send"@,
        "Static"@,
        "WebSockets"@,
    ]
}

/// A name is standard when the catalog lists it, letter for letter.
pub open spec fn is_standard_name(name: Seq<char>) -> bool {
    standard_names().contains(name)
}

/// The catalog of standard plugins. Its content is fixed when it is made
/// and is the same in every catalog.
pub struct PluginCatalog {
    names: Vec<String>,
}

impl View for PluginCatalog {
    type V = Seq<Seq<char>>;

    /// The names that the catalog lists, in its order.
    closed spec fn view(&self) -> Seq<Seq<char>> {
        texts(self.names@)
    }
}

impl PluginCatalog {
    #[verifier::type_invariant]
    spec fn holds_standard_names(self) -> bool {
        texts(self.names@) == standard_names()
    }

    /// Makes the catalog.
    pub fn new() -> (catalog: Self)
        ensures
            catalog@ == standard_names(),
    {
        let mut names: Vec<String> = Vec::new();
        names.push("AMQP".to_owned());
        names.push("Beanstalk".to_owned());
        names.push("BoltDB".to_owned());
        names.push("Broadcast".to_owned());
        names.push("Config".to_owned());
        names.push("FileServer".to_owned());
        names.push("GRPC".to_owned());
        names.push("HTTP".to_owned());
        names.push("Informer".to_owned());
        names.push("Jobs".to_owned());
        names.push("KV".to_owned());
        names.push("Logger".to_owned());
        names.push("Memcached".to_owned());
        names.push("Memory".to_owned());
        names.push("Metrics".to_owned());
        names.push("NATS".to_owned());
        names.push("Redis".to_owned());
        names.push("Reload".to_owned());
        names.push("Resetter".to_owned());
        names.push("RPC".to_owned());
        names.push("Server".to_owned());
        names.push("Service".to_owned());
        names.push("SQS".to_owned());
        names.push("Status".to_owned());
        names.push("TCP".to_owned());
        names.push("Cache".to_owned());
        names.push("Gzip".to_owned());
        names.push("Headers".to_owned());
        names.push("NewRelic".to_owned());
        names.push("Prometheus".to_owned());
        names.push("Send".to_owned());
        names.push("Static".to_owned());
        names.push("WebSockets".to_owned());
        assert(texts(names@) =~= standard_names());
        PluginCatalog { names }
    }

    /// Tells whether `name` is the name of a standard plugin. Names are
    /// compared exactly: case matters.
    pub fn contains(&self, name: &str) -> (found: bool)
        ensures
            self@ == standard_names(),
            found == is_standard_name(name@),
    {
        proof {
            use_type_invariant(self);
        }
        let mut i: usize = 0;
        while i < self.names.len()
            invariant
                0 <= i <= self.names.len(),
                texts(self.names@) == standard_names(),
                forall|k: int| 0 <= k < i ==> standard_names()[k] != name@,
            decreases self.names.len() - i,
        {
            if str_eq(self.names[i].as_str(), name) {
                assert(standard_names()[i as int] == name@);
                return true;
            }
            i += 1;
        }
        false
    }

    /// The names of all standard plugins, in catalog order.
    pub fn all_names(&self) -> (names: &[String])
        ensures
            self@ == standard_names(),
            texts(names@) == standard_names(),
    {
        proof {
            use_type_invariant(self);
        }
        self.names.as_slice()
    }
}

/// No name stands twice in the catalog, and none is empty.
pub proof fn lemma_standard_names_distinct()
    ensures
        standard_names().len() == 33,
        standard_names().no_duplicates(),
        forall|i: int| 0 <= i < standard_names().len() ==> (#[trigger] standard_names()[i]).len() > 0,
{
    reveal_strlit("AMQP");
    reveal_strlit("Beanstalk");
    reveal_strlit("BoltDB");
    reveal_strlit("Broadcast");
    reveal_strlit("Config");
    reveal_strlit("FileServer");
    reveal_strlit("GRPC");
    reveal_strlit("HTTP");
    reveal_strlit("Informer");
    reveal_strlit("Jobs");
    reveal_strlit("KV");
    reveal_strlit("Logger");
    reveal_strlit("Memcached");
    reveal_strlit("Memory");
    reveal_strlit("Metrics");
    reveal_strlit("NATS");
    reveal_strlit("Redis");
    reveal_strlit("Reload");
    reveal_strlit("Resetter");
    reveal_strlit("RPC");
    reveal_strlit("Server");
    reveal_strlit("Service");
    reveal_strlit("SQS");
    reveal_strlit("Status");
    reveal_strlit("TCP");
    reveal_strlit("Cache");
    reveal_strlit("Gzip");
    reveal_strlit("Headers");
    reveal_strlit("NewRelic");
    reveal_strlit("Prometheus");
    reveal_strlit("Send");
    reveal_strlit("Static");
    reveal_strlit("WebSockets");
    let names = standard_names();
    assert forall|i: int, j: int| 0 <= i < names.len() && 0 <= j < names.len() && i != j implies names[i]
        != names[j] by {
        // No two names share both their first and their last letter.
        assert(names[i].first() != names[j].first() || names[i].last() != names[j].last());
    }
}

} // verus!
