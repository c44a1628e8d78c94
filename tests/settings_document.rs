use edgelet_settings::aziot::AutoReprovisioningMode;
use edgelet_settings::document::{Document, Scalar, Value};
use edgelet_settings::schema::{Field, SchemaError, SchemaErrorKind};
use edgelet_settings::watchdog::{RetryLimit, Settings as WatchdogSettings};
use edgelet_settings::{RuntimeSettings, Settings};

fn text(s: &str) -> Value {
    Value::Text(s.to_string())
}

fn record(entries: &[(&str, Scalar)]) -> Value {
    Value::Record(entries.iter().map(|(k, v)| (k.to_string(), v.clone())).collect())
}

fn st(s: &str) -> Scalar {
    Scalar::Text(s.to_string())
}

fn agent() -> Value {
    record(&[
        ("name", st("edgeAgent")),
        ("type", st("docker")),
        ("config", st("image=agent:1.4")),
    ])
}

fn connect() -> Value {
    record(&[
        ("workload_uri", st("unix:///var/run/workload.sock")),
        ("management_uri", st("unix:///var/run/mgmt.sock")),
    ])
}

fn listen() -> Value {
    record(&[
        ("workload_uri", st("fd://aziot-edged.workload.socket")),
        ("management_uri", st("fd://aziot-edged.mgmt.socket")),
    ])
}

fn endpoints() -> Value {
    record(&[
        ("aziot_certd_url", st("unix:///run/certd.sock")),
        ("aziot_keyd_url", st("unix:///run/keyd.sock")),
    ])
}

fn doc(entries: Vec<(&str, Value)>) -> Document {
    Document { entries: entries.into_iter().map(|(k, v)| (k.to_string(), v)).collect() }
}

fn minimal_entries() -> Vec<(&'static str, Value)> {
    vec![
        ("hostname", text("dev1")),
        ("homedir", text("/var/edge")),
        ("agent", agent()),
        ("connect", connect()),
        ("listen", listen()),
    ]
}

fn full_entries() -> Vec<(&'static str, Value)> {
    vec![
        ("hostname", text("dev1")),
        ("edge_ca_cert", text("ca-cert")),
        ("edge_ca_key", text("ca-key")),
        ("trust_bundle_cert", text("trust-bundle")),
        ("manifest_trust_bundle_cert", text("manifest-bundle")),
        ("auto_reprovisioning_mode", text("AlwaysOnStartup")),
        ("homedir", text("/var/edge")),
        ("agent", agent()),
        ("connect", connect()),
        ("listen", listen()),
        ("watchdog", record(&[("max_retries", Scalar::Number(3))])),
        ("endpoints", endpoints()),
    ]
}

fn read(d: &Document, debug: bool) -> Result<Settings<String>, SchemaError> {
    Settings::<String>::from_document(d, debug)
}

fn assert_same_except_endpoints(a: &Settings<String>, b: &Settings<String>) {
    assert_eq!(a.hostname(), b.hostname());
    assert_eq!(a.edge_ca_cert(), b.edge_ca_cert());
    assert_eq!(a.edge_ca_key(), b.edge_ca_key());
    assert_eq!(a.trust_bundle_cert(), b.trust_bundle_cert());
    assert_eq!(a.manifest_trust_bundle_cert(), b.manifest_trust_bundle_cert());
    assert_eq!(a.auto_reprovisioning_mode(), b.auto_reprovisioning_mode());
    assert_eq!(a.homedir(), b.homedir());
    assert_eq!(a.agent(), b.agent());
    assert_eq!(a.connect(), b.connect());
    assert_eq!(a.listen(), b.listen());
    assert_eq!(a.watchdog(), b.watchdog());
}

#[test]
fn minimal_document_takes_defaults() {
    let s = read(&doc(minimal_entries()), false).unwrap();
    assert_eq!(s.hostname(), "dev1");
    assert_eq!(s.homedir(), "/var/edge");
    assert_eq!(s.auto_reprovisioning_mode(), AutoReprovisioningMode::Dynamic);
    assert_eq!(*s.watchdog(), WatchdogSettings { max_retries: RetryLimit::Infinite });
    assert!(s.endpoints().is_empty());
    assert_eq!(s.edge_ca_cert(), None);
    assert_eq!(s.edge_ca_key(), None);
    assert_eq!(s.trust_bundle_cert(), None);
    assert_eq!(s.manifest_trust_bundle_cert(), None);
    assert_eq!(s.agent().name, "edgeAgent");
    assert_eq!(s.agent().type_, "docker");
    assert_eq!(s.agent().config, "image=agent:1.4");
    assert_eq!(s.connect().workload_uri, "unix:///var/run/workload.sock");
    assert_eq!(s.listen().management_uri, "fd://aziot-edged.mgmt.socket");
}

#[test]
fn full_document_is_read_field_by_field() {
    let s = read(&doc(full_entries()), true).unwrap();
    assert_eq!(s.edge_ca_cert(), Some("ca-cert"));
    assert_eq!(s.edge_ca_key(), Some("ca-key"));
    assert_eq!(s.trust_bundle_cert(), Some("trust-bundle"));
    assert_eq!(s.manifest_trust_bundle_cert(), Some("manifest-bundle"));
    assert_eq!(s.auto_reprovisioning_mode(), AutoReprovisioningMode::AlwaysOnStartup);
    assert_eq!(s.watchdog().max_retries, RetryLimit::Num(3));
    assert_eq!(s.endpoints().len(), 2);
    assert_eq!(
        s.endpoints().get(&"aziot_keyd_url".to_string()).map(|u| u.as_str()),
        Some("unix:///run/keyd.sock")
    );
    assert_eq!(s.endpoints().get(&"missing".to_string()), None);
}

#[test]
fn endpoints_are_ignored_outside_debug() {
    let s = read(&doc(full_entries()), false).unwrap();
    assert!(s.endpoints().is_empty());
    assert_eq!(s.hostname(), "dev1");
}

#[test]
fn malformed_endpoints_are_ignored_outside_debug() {
    let mut entries = minimal_entries();
    entries.push(("endpoints", text("not a record")));
    let s = read(&doc(entries.clone()), false).unwrap();
    assert!(s.endpoints().is_empty());
    let e = read(&doc(entries), true).err().unwrap();
    assert_eq!(e, SchemaError { field: Field::Endpoints, kind: SchemaErrorKind::InvalidValue });
}

#[test]
fn round_trip_keeps_everything_but_endpoints() {
    for debug in [false, true] {
        let original = read(&doc(full_entries()), true).unwrap();
        assert_eq!(original.endpoints().len(), 2);
        let written = original.to_document();
        let back = read(&written, debug).unwrap();
        assert_same_except_endpoints(&original, &back);
        assert!(back.endpoints().is_empty());
    }
}

#[test]
fn written_document_never_has_endpoints() {
    let s = read(&doc(full_entries()), true).unwrap();
    let d = s.to_document();
    assert!(d.entries.iter().all(|(k, _)| k != "endpoints"));
    assert_eq!(d.get("endpoints"), None);
}

#[test]
fn written_document_leaves_out_absent_optionals() {
    let s = read(&doc(minimal_entries()), false).unwrap();
    let d = s.to_document();
    let keys: Vec<&str> = d.entries.iter().map(|(k, _)| k.as_str()).collect();
    assert_eq!(
        keys,
        vec!["hostname", "auto_reprovisioning_mode", "homedir", "agent", "connect", "listen", "watchdog"]
    );
    assert_eq!(d.get("auto_reprovisioning_mode"), Some(&text("Dynamic")));
    assert_eq!(d.get("watchdog"), Some(&record(&[("max_retries", st("infinite"))])));
}

#[test]
fn written_document_holds_every_present_field() {
    let s = read(&doc(full_entries()), true).unwrap();
    let d = s.to_document();
    assert_eq!(d.entries.len(), 11);
    assert_eq!(d.get("edge_ca_key"), Some(&text("ca-key")));
    assert_eq!(d.get("auto_reprovisioning_mode"), Some(&text("AlwaysOnStartup")));
    assert_eq!(d.get("agent"), Some(&agent()));
    assert_eq!(d.get("watchdog"), Some(&record(&[("max_retries", Scalar::Number(3))])));
}

#[test]
fn each_optional_field_may_be_left_out() {
    let optional = [
        "edge_ca_cert",
        "edge_ca_key",
        "trust_bundle_cert",
        "manifest_trust_bundle_cert",
        "auto_reprovisioning_mode",
        "watchdog",
        "endpoints",
    ];
    for key in optional {
        let entries: Vec<(&str, Value)> =
            full_entries().into_iter().filter(|(k, _)| *k != key).collect();
        let s = read(&doc(entries), true).unwrap();
        match key {
            "edge_ca_cert" => assert_eq!(s.edge_ca_cert(), None),
            "edge_ca_key" => assert_eq!(s.edge_ca_key(), None),
            "trust_bundle_cert" => assert_eq!(s.trust_bundle_cert(), None),
            "manifest_trust_bundle_cert" => assert_eq!(s.manifest_trust_bundle_cert(), None),
            "auto_reprovisioning_mode" => {
                assert_eq!(s.auto_reprovisioning_mode(), AutoReprovisioningMode::Dynamic)
            }
            "watchdog" => assert_eq!(s.watchdog().max_retries, RetryLimit::Infinite),
            _ => assert!(s.endpoints().is_empty()),
        }
        assert_eq!(s.hostname(), "dev1");
    }
}

#[test]
fn each_required_field_is_needed() {
    let required = [
        ("hostname", Field::Hostname),
        ("homedir", Field::Homedir),
        ("agent", Field::Agent),
        ("connect", Field::Connect),
        ("listen", Field::Listen),
    ];
    for base in [minimal_entries(), full_entries()] {
        for (key, field) in required {
            let entries: Vec<(&str, Value)> =
                base.clone().into_iter().filter(|(k, _)| *k != key).collect();
            for debug in [false, true] {
                let e = read(&doc(entries.clone()), debug).err().unwrap();
                assert_eq!(e, SchemaError { field, kind: SchemaErrorKind::MissingField });
            }
        }
    }
}

#[test]
fn wrong_shapes_are_invalid_values() {
    let cases = [
        ("hostname", Value::Number(7), Field::Hostname),
        ("edge_ca_cert", Value::Number(7), Field::EdgeCaCert),
        ("auto_reprovisioning_mode", text("Sometimes"), Field::AutoReprovisioningMode),
        ("homedir", connect(), Field::Homedir),
        ("agent", text("edgeAgent"), Field::Agent),
        ("connect", record(&[("workload_uri", st("a"))]), Field::Connect),
        ("listen", record(&[("workload_uri", st("a")), ("management_uri", Scalar::Number(1))]), Field::Listen),
        ("watchdog", record(&[("max_retries", Scalar::Number(1 << 40))]), Field::Watchdog),
        ("watchdog", record(&[("max_retries", st("forever"))]), Field::Watchdog),
    ];
    for (key, value, field) in cases {
        let mut entries: Vec<(&str, Value)> =
            minimal_entries().into_iter().filter(|(k, _)| *k != key).collect();
        entries.push((key, value));
        let e = read(&doc(entries), false).err().unwrap();
        assert_eq!(e, SchemaError { field, kind: SchemaErrorKind::InvalidValue });
    }
}

#[test]
fn first_wrong_field_is_reported() {
    let entries = vec![("agent", text("no record")), ("listen", text("no record"))];
    let e = read(&doc(entries), false).err().unwrap();
    assert_eq!(e, SchemaError { field: Field::Hostname, kind: SchemaErrorKind::MissingField });
}

#[test]
fn watchdog_without_max_retries_is_infinite() {
    let mut entries = minimal_entries();
    entries.push(("watchdog", record(&[])));
    let s = read(&doc(entries), false).unwrap();
    assert_eq!(s.watchdog().max_retries, RetryLimit::Infinite);
}

#[test]
fn largest_retry_count_fits() {
    let mut entries = minimal_entries();
    entries.push(("watchdog", record(&[("max_retries", Scalar::Number(u32::MAX as u64))])));
    let s = read(&doc(entries), false).unwrap();
    assert_eq!(s.watchdog().max_retries, RetryLimit::Num(u32::MAX));
}

#[test]
fn first_entry_of_a_repeated_key_wins() {
    let mut entries = minimal_entries();
    entries.push(("hostname", text("dev2")));
    let s = read(&doc(entries), false).unwrap();
    assert_eq!(s.hostname(), "dev1");
}

#[test]
fn changing_the_agent_leaves_the_rest() {
    let mut s = read(&doc(full_entries()), true).unwrap();
    let before = s.clone();
    {
        let a = s.agent_mut();
        a.name = "edgeAgent2".to_string();
        a.config = "image=agent:2.0".to_string();
    }
    assert_eq!(s.agent().name, "edgeAgent2");
    assert_eq!(s.agent().config, "image=agent:2.0");
    assert_eq!(s.hostname(), before.hostname());
    assert_eq!(s.connect(), before.connect());
    assert_eq!(s.listen(), before.listen());
    assert_eq!(s.watchdog(), before.watchdog());
    assert_eq!(s.homedir(), before.homedir());
    assert_eq!(s.edge_ca_cert(), before.edge_ca_cert());
    assert_eq!(s.edge_ca_key(), before.edge_ca_key());
    assert_eq!(s.trust_bundle_cert(), before.trust_bundle_cert());
    assert_eq!(s.manifest_trust_bundle_cert(), before.manifest_trust_bundle_cert());
    assert_eq!(s.endpoints(), before.endpoints());
}

#[test]
fn every_mode_name_is_read() {
    for (name, mode) in [
        ("Dynamic", AutoReprovisioningMode::Dynamic),
        ("AlwaysOnStartup", AutoReprovisioningMode::AlwaysOnStartup),
        ("OnErrorOnly", AutoReprovisioningMode::OnErrorOnly),
    ] {
        let mut entries = minimal_entries();
        entries.push(("auto_reprovisioning_mode", text(name)));
        let s = read(&doc(entries), false).unwrap();
        assert_eq!(s.auto_reprovisioning_mode(), mode);
        assert_eq!(s.to_document().get("auto_reprovisioning_mode"), Some(&text(name)));
    }
}
