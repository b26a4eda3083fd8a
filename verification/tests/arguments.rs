use h2ok::args::effective_namespace;
use h2ok::args::validate_kubeconfig_path;

#[test]
fn test_validate_kubeconfig_path_accepts_existing_file() {
    let r = validate_kubeconfig_path(String::from("kubeconfig"), true);
    assert!(r.is_ok());
}

#[test]
fn test_validate_kubeconfig_path_rejects_missing_file() {
    let r = validate_kubeconfig_path(String::from("no/such/file"), false);
    assert_eq!(r.unwrap_err(), "Invalid kubeconfig file: 'no/such/file'");
}

#[test]
fn test_effective_namespace_defaults() {
    assert_eq!(effective_namespace(None), "default");
    assert_eq!(
        effective_namespace(Some(String::from("non-default"))),
        "non-default"
    );
}
