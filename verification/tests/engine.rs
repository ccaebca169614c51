use helm_api::chart::split_chart_label;
use helm_api::commands::{init_command, repo_update_command, run_result};
use helm_api::digest::digest_of;
use helm_api::inventory::{charts_from_items, ItemMeta};
use helm_api::{Chart, CommandOutcome, Config, Helm, HelmError, OutSession, Source, Version};

fn test_config(ca_data: Option<&str>, skip_tls_verify: Option<bool>) -> Config {
    Config {
        url: "https://cluster.example".to_string(),
        username: "u".to_string(),
        password: "p".to_string(),
        namespace: "ns".to_string(),
        skip_tls_verify,
        ca_data: ca_data.map(|s| s.to_string()),
    }
}

fn test_helm() -> Helm {
    let plan = test_config(None, Some(true)).bootstrap_plan().unwrap();
    Helm::configure(plan, "/tmp/kube-config".to_string(), None)
}

fn chart(release: &str, name: &str, version: Option<&str>) -> Chart {
    Chart {
        release: release.to_string(),
        name: name.to_string(),
        version: version.map(|v| v.to_string()),
        overrides: None,
    }
}

#[test]
fn bootstrap_accepts_any_ca_data() {
    let plan = test_config(Some("pem data"), None).bootstrap_plan().unwrap();
    assert_eq!(plan.url, "https://cluster.example");
    assert_eq!(plan.namespace, "ns");
    assert_eq!(plan.username, "u");
    assert_eq!(plan.password, "p");
    assert!(!plan.skip_tls_verify);
    assert_eq!(plan.ca_data.as_deref(), Some("pem data"));
}

#[test]
fn bootstrap_base64_encodes_trimmed_ca_data() {
    let plan = test_config(Some("  abc\n"), None).bootstrap_plan().unwrap();
    assert_eq!(plan.ca_data_base64, base64::encode("abc"));
    assert_eq!(plan.ca_data_base64, "YWJj");
    assert_eq!(plan.ca_data.as_deref(), Some("  abc\n"));
}

#[test]
fn bootstrap_rejects_missing_ca_data() {
    let r = test_config(None, None).bootstrap_plan();
    assert!(matches!(r, Err(HelmError::ConfigInvariantViolation)));
    let r = test_config(None, Some(false)).bootstrap_plan();
    assert!(matches!(r, Err(HelmError::ConfigInvariantViolation)));
}

#[test]
fn bootstrap_allows_explicit_skip() {
    let plan = test_config(None, Some(true)).bootstrap_plan().unwrap();
    assert!(plan.skip_tls_verify);
    assert_eq!(plan.ca_data_base64, "");
    assert!(plan.ca_data.is_none());
}

#[test]
fn source_carries_over_to_config() {
    let source = Source {
        url: "https://cluster.example".to_string(),
        username: "u".to_string(),
        password: "p".to_string(),
        namespace: "n".to_string(),
        skip_tls_verify: Some(true),
        ca_data: None,
    };
    let config = source.into_config();
    assert_eq!(config.url, "https://cluster.example");
    assert_eq!(config.username, "u");
    assert_eq!(config.password, "p");
    assert_eq!(config.namespace, "n");
    assert_eq!(config.skip_tls_verify, Some(true));
    assert_eq!(config.ca_data, None);
}

#[test]
fn label_splits_on_last_hyphen() {
    let (name, version) = split_chart_label("mychart-1.2.3").unwrap();
    assert_eq!(name, "mychart");
    assert_eq!(version, "1.2.3");

    let (name, version) = split_chart_label("my-chart-name-2.0.0").unwrap();
    assert_eq!(name, "my-chart-name");
    assert_eq!(version, "2.0.0");
}

#[test]
fn label_without_hyphen_is_dropped() {
    assert!(split_chart_label("nohyphen").is_none());
    assert!(split_chart_label("").is_none());
}

#[test]
fn label_split_keeps_empty_halves() {
    let (name, version) = split_chart_label("-abc").unwrap();
    assert_eq!(name, "");
    assert_eq!(version, "abc");

    let (name, version) = split_chart_label("abc-").unwrap();
    assert_eq!(name, "abc");
    assert_eq!(version, "");
}

fn meta(ns: Option<&str>, heritage: Option<&str>, release: Option<&str>, chart: Option<&str>) -> ItemMeta {
    ItemMeta {
        namespace: ns.map(|s| s.to_string()),
        heritage: heritage.map(|s| s.to_string()),
        release: release.map(|s| s.to_string()),
        chart: chart.map(|s| s.to_string()),
    }
}

#[test]
fn foreign_items_never_join_the_inventory() {
    let namespace = "ns".to_string();
    let items = vec![
        meta(Some("ns"), Some("Tiller"), Some("r1"), Some("app-1.0.0")),
        meta(Some("other"), Some("Tiller"), Some("r2"), Some("app-1.0.0")),
        meta(Some("ns"), Some("NotTiller"), Some("r3"), Some("app-1.0.0")),
        meta(Some("ns"), None, Some("r4"), Some("app-1.0.0")),
        meta(None, Some("Tiller"), Some("r5"), Some("app-1.0.0")),
        meta(Some("ns"), Some("Tiller"), None, Some("app-1.0.0")),
        meta(Some("ns"), Some("Tiller"), Some("r7"), None),
        meta(Some("ns"), Some("Tiller"), Some("r8"), Some("nohyphen")),
    ];
    let charts = charts_from_items(&items, &namespace);
    assert_eq!(charts.len(), 1);
    assert_eq!(charts[0].release, "r1");
    assert_eq!(charts[0].name, "app");
    assert_eq!(charts[0].version.as_deref(), Some("1.0.0"));
    assert!(charts[0].overrides.is_none());
}

#[test]
fn list_reconstructs_inventory_from_raw_response() {
    let helm = test_helm();
    let mut body = String::new();
    body.push_str("{\"items\": [");
    body.push_str("{\"metadata\": {\"namespace\": \"ns\", \"labels\": ");
    body.push_str("{\"heritage\": \"Tiller\", \"release\": \"r1\", \"chart\": \"my-chart-name-2.0.0\"}}},");
    body.push_str("{\"metadata\": {\"namespace\": \"elsewhere\", \"labels\": ");
    body.push_str("{\"heritage\": \"Tiller\", \"release\": \"r2\", \"chart\": \"app-1.0.0\"}}},");
    body.push_str("{\"metadata\": {\"namespace\": \"ns\", \"labels\": ");
    body.push_str("{\"heritage\": \"Helm\", \"release\": \"r3\", \"chart\": \"app-1.0.0\"}}},");
    body.push_str("{\"metadata\": {\"namespace\": \"ns\"}},");
    body.push_str("{\"no_metadata\": true},");
    body.push_str("17]}");
    let charts = helm.list(Some(&body)).unwrap();
    assert_eq!(charts.len(), 1);
    assert_eq!(charts[0].release, "r1");
    assert_eq!(charts[0].name, "my-chart-name");
    assert_eq!(charts[0].version.as_deref(), Some("2.0.0"));
}

#[test]
fn list_tolerates_missing_or_malformed_items() {
    let helm = test_helm();
    let empty_object = "{}".to_string();
    assert!(helm.list(Some(&empty_object)).unwrap().is_empty());
    let non_array = "{\"items\": 3}".to_string();
    assert!(helm.list(Some(&non_array)).unwrap().is_empty());
    let padded = "  {\"items\": []}\n".to_string();
    assert!(helm.list(Some(&padded)).unwrap().is_empty());
}

#[test]
fn list_fails_on_transport_or_non_object_response() {
    let helm = test_helm();
    assert!(matches!(helm.list(None), Err(HelmError::NetworkOrApiFailure)));
    let not_an_object = "[1, 2]".to_string();
    assert!(matches!(helm.list(Some(&not_an_object)), Err(HelmError::NetworkOrApiFailure)));
    let not_json = "<html>".to_string();
    assert!(matches!(helm.list(Some(&not_json)), Err(HelmError::NetworkOrApiFailure)));
}

#[test]
fn digest_of_empty_inventory() {
    assert_eq!(digest_of(&vec![]), "d41d8cd98f00b204e9800998ecf8427e");
    assert_eq!(digest_of(&vec![]), format!("{:x}", md5::compute("")));
}

#[test]
fn digest_folds_release_name_version_in_order() {
    let charts = vec![chart("r1", "app", Some("1.0.0")), chart("r2", "db", None)];
    assert_eq!(digest_of(&charts), format!("{:x}", md5::compute("r1app1.0.0r2db")));
}

#[test]
fn digest_is_32_lowercase_hex_chars() {
    let d = digest_of(&vec![chart("r1", "app", Some("1.0.0")), chart("r2", "db", None)]);
    assert_eq!(d.len(), 32);
    assert!(d.chars().all(|c| c.is_ascii_digit() || ('a'..='f').contains(&c)));
}

#[test]
fn digest_is_stable_and_content_sensitive() {
    let charts = vec![chart("r1", "app", Some("1.0.0")), chart("r2", "db", Some("2.1.0"))];
    let again = vec![chart("r1", "app", Some("1.0.0")), chart("r2", "db", Some("2.1.0"))];
    assert_eq!(digest_of(&charts), digest_of(&again));

    let release_changed = vec![chart("rX", "app", Some("1.0.0")), chart("r2", "db", Some("2.1.0"))];
    let name_changed = vec![chart("r1", "apq", Some("1.0.0")), chart("r2", "db", Some("2.1.0"))];
    let version_changed = vec![chart("r1", "app", Some("1.0.1")), chart("r2", "db", Some("2.1.0"))];
    assert_ne!(digest_of(&charts), digest_of(&release_changed));
    assert_ne!(digest_of(&charts), digest_of(&name_changed));
    assert_ne!(digest_of(&charts), digest_of(&version_changed));
}

#[test]
fn deployments_endpoint_appends_fixed_segments() {
    let helm = test_helm();
    assert_eq!(
        helm.deployments_endpoint().unwrap(),
        "https://cluster.example/apis/extensions/v1beta1/namespaces/ns/deployments"
    );
}

#[test]
fn endpoint_fails_on_a_base_that_takes_no_segments() {
    let plan = Config {
        url: "mailto:u@cluster.example".to_string(),
        ..test_config(None, Some(true))
    }
    .bootstrap_plan()
    .unwrap();
    let helm = Helm::configure(plan, "/tmp/kube-config".to_string(), None);
    assert!(matches!(helm.deployments_endpoint(), Err(HelmError::UrlConstructionFailure)));
}

#[test]
fn upgrade_command_pins_version_and_values() {
    let helm = test_helm();
    let plain = chart("r1", "app", None);
    assert_eq!(helm.upgrade(&plain, None), "helm upgrade -i --namespace ns r1 stable/app");

    let pinned = chart("r1", "app", Some("1.0.0"));
    assert_eq!(
        helm.upgrade(&pinned, None),
        "helm upgrade -i --namespace ns --version 1.0.0 r1 stable/app"
    );

    let mut overrides = std::collections::HashMap::new();
    overrides.insert("replicas".to_string(), serde_json::Value::String("3".to_string()));
    let with_values = Chart { overrides: Some(overrides), ..chart("r1", "app", Some("1.0.0")) };
    let path = "/tmp/values.yaml".to_string();
    assert_eq!(
        helm.upgrade(&with_values, Some(&path)),
        "helm upgrade -i --namespace ns --version 1.0.0 --values /tmp/values.yaml r1 stable/app"
    );
}

#[test]
fn delete_command_addresses_the_release_alone() {
    let helm = test_helm();
    assert_eq!(helm.delete("r1"), "helm delete r1");
}

#[test]
fn bootstrap_command_texts() {
    assert_eq!(init_command(), "helm init --client-only 1>&2");
    assert_eq!(repo_update_command(), "helm repo update");
}

#[test]
fn run_result_trims_stdout_on_success() {
    let outcome = CommandOutcome { success: true, stdout: "  deployed \n".to_string() };
    assert_eq!(run_result("helm repo update", outcome).unwrap(), "deployed");
}

#[test]
fn run_result_fails_with_the_command_text() {
    let outcome = CommandOutcome { success: false, stdout: "".to_string() };
    let r = run_result("helm repo update", outcome);
    match r {
        Err(HelmError::CommandExecutionFailure(cmd)) => assert_eq!(cmd, "helm repo update"),
        _ => panic!("expected CommandExecutionFailure"),
    }
}

#[test]
fn out_with_zero_charts_issues_zero_commands() {
    let session = OutSession::new(vec![]);
    assert!(session.next_chart().is_none());
    let d = digest_of(&vec![]);
    assert_eq!(d.len(), 32);
}

#[test]
fn out_aborts_the_remainder_on_first_failure() {
    let helm = test_helm();
    let charts = vec![chart("r1", "a", None), chart("r2", "b", None), chart("r3", "c", None)];
    let mut session = OutSession::new(charts);
    let mut issued: Vec<String> = Vec::new();

    let first = session.next_chart().unwrap();
    issued.push(helm.upgrade(first, None));
    session.record(true);

    let second = session.next_chart().unwrap();
    issued.push(helm.upgrade(second, None));
    session.record(false);

    assert!(session.next_chart().is_none());
    assert_eq!(issued.len(), 2);
    assert_eq!(issued[0], "helm upgrade -i --namespace ns r1 stable/a");
    assert_eq!(issued[1], "helm upgrade -i --namespace ns r2 stable/b");
}

#[test]
fn check_reflects_mutations_end_to_end() {
    let source = Source {
        url: "https://cluster.example".to_string(),
        username: "u".to_string(),
        password: "p".to_string(),
        namespace: "ns".to_string(),
        skip_tls_verify: Some(true),
        ca_data: None,
    };
    let plan = source.into_config().bootstrap_plan().unwrap();
    let helm = Helm::configure(plan, "/tmp/kube-config".to_string(), None);

    let empty_cluster = "{\"items\": []}".to_string();
    let d0 = helm.digest(Some(&empty_cluster)).unwrap();
    assert_eq!(d0, "d41d8cd98f00b204e9800998ecf8427e");
    let check_response = vec![Version { digest: d0.clone() }];
    assert_eq!(check_response.len(), 1);

    let mut after_out = String::new();
    after_out.push_str("{\"items\": [{\"metadata\": {\"namespace\": \"ns\", \"labels\": ");
    after_out.push_str("{\"heritage\": \"Tiller\", \"release\": \"r1\", \"chart\": \"app-1.0.0\"}}}]}");
    let d1 = helm.digest(Some(&after_out)).unwrap();
    assert_eq!(d1, format!("{:x}", md5::compute("r1app1.0.0")));
    assert_ne!(d0, d1);
}
