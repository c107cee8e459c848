use rrbuild::catalog::PluginCatalog;
use rrbuild::error::{RemoteFault, ResolutionError};
use rrbuild::identity::PluginSource;
use rrbuild::plan::BuildPlan;
use rrbuild::request::PluginRequestSet;
use rrbuild::resolver::PluginResolver;

fn strings(items: &[&str]) -> Vec<String> {
    items.iter().map(|s| s.to_string()).collect()
}

fn resolve(standard: &[&str], remote: &[&str]) -> Result<BuildPlan, ResolutionError> {
    let catalog = PluginCatalog::new();
    let resolver = PluginResolver::new(&catalog);
    resolver.resolve(&PluginRequestSet::new(strings(standard), strings(remote)))
}

fn summary(plan: &BuildPlan) -> Vec<(PluginSource, String, Option<String>)> {
    plan.entries()
        .iter()
        .map(|e| (e.source(), e.name().to_string(), e.location().map(|l| l.to_string())))
        .collect()
}

fn standard(name: &str) -> (PluginSource, String, Option<String>) {
    (PluginSource::Standard, name.to_string(), None)
}

fn remote(reference: &str) -> (PluginSource, String, Option<String>) {
    (PluginSource::Remote, reference.to_string(), Some(reference.to_string()))
}

#[test]
fn empty_request_is_refused() {
    assert_eq!(resolve(&[], &[]).unwrap_err(), ResolutionError::EmptyPluginSet);
}

#[test]
fn standard_then_remote_in_requested_order() {
    let plan = resolve(&["HTTP", "GRPC"], &["myplugin"]).unwrap();
    assert_eq!(plan.length(), 3);
    assert_eq!(summary(&plan), vec![standard("HTTP"), standard("GRPC"), remote("myplugin")]);
}

#[test]
fn two_standard_plugins() {
    let plan = resolve(&["BoltDB", "Config"], &[]).unwrap();
    assert_eq!(plan.length(), 2);
    assert_eq!(summary(&plan), vec![standard("BoltDB"), standard("Config")]);
}

#[test]
fn misspelt_standard_name_is_unknown() {
    assert_eq!(
        resolve(&["Bolt"], &[]).unwrap_err(),
        ResolutionError::UnknownStandardPlugin("Bolt".to_string())
    );
}

#[test]
fn empty_remote_reference_is_invalid() {
    assert_eq!(
        resolve(&[], &[""]).unwrap_err(),
        ResolutionError::InvalidRemoteReference(String::new(), RemoteFault::BlankLocation)
    );
}

#[test]
fn white_space_remote_reference_is_invalid() {
    assert_eq!(
        resolve(&["HTTP"], &["ok", " \t\u{a0}\u{3000}\n", ""]).unwrap_err(),
        ResolutionError::InvalidRemoteReference(
            " \t\u{a0}\u{3000}\n".to_string(),
            RemoteFault::BlankLocation
        )
    );
}

#[test]
fn remote_only_request_resolves() {
    let plan = resolve(&[], &["github.com/acme/plugin", "./local/path"]).unwrap();
    assert_eq!(
        summary(&plan),
        vec![remote("github.com/acme/plugin"), remote("./local/path")]
    );
}

#[test]
fn plan_length_is_the_number_of_requested_names() {
    let wanted = ["AMQP", "KV", "Jobs", "Redis", "WebSockets"];
    let refs = ["a", "b", "c"];
    let plan = resolve(&wanted, &refs).unwrap();
    assert_eq!(plan.length(), 8);
    assert_eq!(plan.entries().len(), 8);
}

#[test]
fn every_catalog_name_resolves_in_catalog_order() {
    let catalog = PluginCatalog::new();
    let names: Vec<String> = catalog.all_names().to_vec();
    let resolver = PluginResolver::new(&catalog);
    let plan = resolver.resolve(&PluginRequestSet::new(names.clone(), Vec::new())).unwrap();
    assert_eq!(plan.length(), 33);
    let got: Vec<String> = plan.entries().iter().map(|e| e.name().to_string()).collect();
    assert_eq!(got, names);
}

#[test]
fn first_unknown_standard_name_is_reported() {
    assert_eq!(
        resolve(&["HTTP", "Nope", "Other"], &[""]).unwrap_err(),
        ResolutionError::UnknownStandardPlugin("Nope".to_string())
    );
}

#[test]
fn standard_names_are_case_sensitive() {
    assert_eq!(
        resolve(&["http"], &[]).unwrap_err(),
        ResolutionError::UnknownStandardPlugin("http".to_string())
    );
    assert_eq!(
        resolve(&["HTTP "], &[]).unwrap_err(),
        ResolutionError::UnknownStandardPlugin("HTTP ".to_string())
    );
}

#[test]
fn unknown_standard_name_comes_before_other_faults() {
    assert_eq!(
        resolve(&["Bolt", "Bolt"], &["", "x", "x"]).unwrap_err(),
        ResolutionError::UnknownStandardPlugin("Bolt".to_string())
    );
}

#[test]
fn blank_remote_comes_before_duplicates() {
    assert_eq!(
        resolve(&["HTTP", "HTTP"], &[" "]).unwrap_err(),
        ResolutionError::InvalidRemoteReference(" ".to_string(), RemoteFault::BlankLocation)
    );
}

#[test]
fn duplicate_within_standard_names() {
    assert_eq!(
        resolve(&["HTTP", "GRPC", "HTTP"], &[]).unwrap_err(),
        ResolutionError::DuplicatePlugin("HTTP".to_string())
    );
}

#[test]
fn duplicate_within_remote_references() {
    assert_eq!(
        resolve(&[], &["mine", "yours", "mine"]).unwrap_err(),
        ResolutionError::DuplicatePlugin("mine".to_string())
    );
}

#[test]
fn duplicate_across_standard_and_remote() {
    assert_eq!(
        resolve(&["HTTP", "GRPC"], &["myplugin", "GRPC"]).unwrap_err(),
        ResolutionError::DuplicatePlugin("GRPC".to_string())
    );
}

#[test]
fn first_repeated_name_is_reported() {
    // "B" repeats at index 2, before "A" repeats at index 3.
    assert_eq!(
        resolve(&[], &["A", "B", "B", "A"]).unwrap_err(),
        ResolutionError::DuplicatePlugin("B".to_string())
    );
}

#[test]
fn names_differing_in_case_are_not_duplicates() {
    let plan = resolve(&["HTTP"], &["http", "Http"]).unwrap();
    assert_eq!(summary(&plan), vec![standard("HTTP"), remote("http"), remote("Http")]);
}

#[test]
fn resolving_twice_gives_equal_plans() {
    let catalog = PluginCatalog::new();
    let resolver = PluginResolver::new(&catalog);
    let request = PluginRequestSet::new(strings(&["Server", "Logger"]), strings(&["extra"]));
    let first = resolver.resolve(&request).unwrap();
    let second = resolver.resolve(&request).unwrap();
    assert_eq!(summary(&first), summary(&second));
    assert_eq!(first.entries(), second.entries());

    let bad = PluginRequestSet::new(strings(&["Server", "Server"]), Vec::new());
    assert_eq!(resolver.resolve(&bad).unwrap_err(), resolver.resolve(&bad).unwrap_err());
}

#[test]
fn request_set_carries_what_was_asked() {
    let request = PluginRequestSet::new(strings(&["x", "x", ""]), strings(&["", "y"]));
    assert_eq!(request.standard_names().to_vec(), strings(&["x", "x", ""]));
    assert_eq!(request.remote_refs().to_vec(), strings(&["", "y"]));
}

#[test]
fn resolver_consults_the_catalog_it_was_given() {
    let catalog = PluginCatalog::new();
    let resolver = PluginResolver::new(&catalog);
    assert_eq!(resolver.catalog().all_names(), catalog.all_names());
}

#[test]
fn plan_entries_have_distinct_names() {
    let plan = resolve(&["TCP", "Status", "Static"], &["one", "two"]).unwrap();
    let entries = plan.entries();
    for i in 0..entries.len() {
        for j in 0..i {
            assert_ne!(entries[i].name(), entries[j].name());
        }
    }
}
