use mycelial::config_map::{ConfigMap, ConfigValue};
use mycelial::constructor::{bacalhau_from_parts, bacalhau_settings, destination_ctor, CtorError};
use mycelial::destination::Bacalhau;

fn config(entries: &[(&str, ConfigValue)]) -> ConfigMap {
    let mut m = ConfigMap::new();
    for (k, v) in entries {
        m.insert(k.to_string(), v.clone());
    }
    m
}

fn s(v: &str) -> ConfigValue {
    ConfigValue::Str(v.to_string())
}

#[test]
fn config_map_get_after_insert() {
    let mut m = ConfigMap::new();
    assert!(m.get("job").is_none());
    m.insert("job".to_string(), s("a"));
    m.insert("other".to_string(), ConfigValue::Other);
    assert_eq!(m.get("job").and_then(|v| v.as_str()), Some("a"));
    assert!(matches!(m.get("other"), Some(ConfigValue::Other)));
    m.insert("job".to_string(), s("b"));
    assert_eq!(m.get("job").and_then(|v| v.as_str()), Some("b"));
    assert!(m.get("missing").is_none());
}

#[test]
fn config_value_as_str() {
    assert_eq!(s("x").as_str(), Some("x"));
    assert_eq!(ConfigValue::Other.as_str(), None);
}

#[test]
fn ctor_missing_job() {
    let r = destination_ctor(&config(&[("jobstore", s("/"))]));
    let e = r.unwrap_err();
    assert!(matches!(e, CtorError::MissingJob));
    assert_eq!(e.message(), "bacalhau section requires 'job'");
}

#[test]
fn ctor_job_not_string() {
    let r = destination_ctor(&config(&[("job", ConfigValue::Other), ("jobstore", s("/"))]));
    let e = r.unwrap_err();
    assert!(matches!(e, CtorError::JobNotString));
    assert_eq!(e.message(), "'job' should be a string");
}

#[test]
fn ctor_missing_jobstore() {
    let e = destination_ctor(&config(&[("job", s("j"))])).unwrap_err();
    assert!(matches!(e, CtorError::MissingJobstore));
    assert_eq!(e.message(), "bacalhau section requires 'jobstore'");
}

#[test]
fn ctor_jobstore_not_string() {
    let e = destination_ctor(&config(&[("job", s("j")), ("jobstore", ConfigValue::Other)])).unwrap_err();
    assert!(matches!(e, CtorError::JobstoreNotString));
    assert_eq!(e.message(), "'jobstore' should be a string");
}

#[test]
fn ctor_job_checked_before_jobstore() {
    let e = destination_ctor(&config(&[("job", ConfigValue::Other)])).unwrap_err();
    assert!(matches!(e, CtorError::JobNotString));
    let e = destination_ctor(&ConfigMap::new()).unwrap_err();
    assert!(matches!(e, CtorError::MissingJob));
}

#[test]
fn ctor_jobstore_does_not_exist() {
    let path = "/nonexistent/mycelial/jobstore/dir";
    let e = destination_ctor(&config(&[("job", s("j")), ("jobstore", s(path))])).unwrap_err();
    match &e {
        CtorError::JobstoreNotFound(p) => assert_eq!(p, path),
        _ => panic!("wrong error"),
    }
    assert_eq!(e.message(), "'jobstore' path '/nonexistent/mycelial/jobstore/dir' does not exist");
}

#[test]
fn ctor_builds_section() {
    let b = destination_ctor(&config(&[("job", s("hello.yaml")), ("jobstore", s("/")), ("extra", s("x"))])).unwrap();
    assert_eq!(b.job, "hello.yaml");
    assert_eq!(b.jobstore.path, "/");
}

#[test]
fn from_parts_exact() {
    let b = bacalhau_from_parts("j", "/store", true).unwrap();
    assert_eq!(b.job, "j");
    assert_eq!(b.jobstore.path, "/store");
    let e = bacalhau_from_parts("j", "/store", false).unwrap_err();
    assert_eq!(e.message(), "'jobstore' path '/store' does not exist");
}

#[test]
fn bacalhau_new_keeps_fields() {
    let b = Bacalhau::new("job".to_string(), "store".to_string());
    assert_eq!(b.job, "job");
    assert_eq!(b.jobstore.path, "store");
}

#[test]
fn settings_are_exact() {
    let (job, store) = bacalhau_settings(&config(&[("job", s("j")), ("jobstore", s("/nowhere"))])).unwrap();
    assert_eq!(job, "j");
    assert_eq!(store, "/nowhere");
    let e = bacalhau_settings(&config(&[("job", s("j"))])).unwrap_err();
    assert!(matches!(e, CtorError::MissingJobstore));
}

#[test]
fn other_keys_do_not_matter() {
    let a = config(&[("job", s("j")), ("jobstore", s("/"))]);
    let b = config(&[("job", s("j")), ("extra", ConfigValue::Other), ("jobstore", s("/")), ("more", s("m"))]);
    let ra = destination_ctor(&a).unwrap();
    let rb = destination_ctor(&b).unwrap();
    assert_eq!(ra.job, rb.job);
    assert_eq!(ra.jobstore.path, rb.jobstore.path);
    let ea = destination_ctor(&config(&[("job", ConfigValue::Other)])).unwrap_err();
    let eb = destination_ctor(&config(&[("job", ConfigValue::Other), ("x", s("y"))])).unwrap_err();
    assert_eq!(ea.message(), eb.message());
}

