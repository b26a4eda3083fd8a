use h2ok::definitions::h2o_ingress;
use h2ok::definitions::h2o_service;
use h2ok::definitions::h2o_stateful_set;
use h2ok::definitions::ResourceKind;

#[test]
fn test_workload_end_to_end() {
    let m = h2o_stateful_set("h2o", "prod", "h2oai/h2o", "3.32").unwrap();
    assert_eq!(m.api_version, "apps/v1");
    assert_eq!(m.kind, "StatefulSet");
    assert_eq!(m.name, "h2o-stateful-set");
    assert_eq!(m.service_name, "h2o-service");
    assert_eq!(m.replicas, 3);
    assert_eq!(m.selector_app, "h2o");
    assert_eq!(m.template_app, "h2o");
    assert_eq!(m.container_name, "h2o");
    assert_eq!(m.image, "h2oai/h2o:3.32");
    assert_eq!(m.container_port, 54321);
    assert_eq!(m.protocol, "TCP");
    assert_eq!(m.readiness_probe.path, "/kubernetes/isLeaderNode");
    assert_eq!(m.readiness_probe.port, 8081);
    assert_eq!(m.readiness_probe.initial_delay_seconds, 5);
    assert_eq!(m.readiness_probe.period_seconds, 5);
    assert_eq!(m.readiness_probe.failure_threshold, 1);
    assert_eq!(m.env.len(), 4);
    assert_eq!(m.env[0].name, "H2O_KUBERNETES_SERVICE_DNS");
    assert_eq!(m.env[0].value, "h2o-service.prod.svc.cluster.local");
    assert_eq!(m.env[1].name, "H2O_NODE_LOOKUP_TIMEOUT");
    assert_eq!(m.env[1].value, "180");
    assert_eq!(m.env[2].name, "H2O_NODE_EXPECTED_COUNT");
    assert_eq!(m.env[2].value, "3");
    assert_eq!(m.env[3].name, "H2O_KUBERNETES_API_PORT");
    assert_eq!(m.env[3].value, "8081");
}

#[test]
fn test_service_end_to_end() {
    let m = h2o_service("h2o", "prod").unwrap();
    assert_eq!(m.api_version, "v1");
    assert_eq!(m.kind, "Service");
    assert_eq!(m.name, "h2o-service");
    assert_eq!(m.namespace, "prod");
    assert_eq!(m.service_type, "ClusterIP");
    assert_eq!(m.cluster_ip, "None");
    assert_eq!(m.selector_app, "h2o");
    assert_eq!(m.protocol, "TCP");
    assert_eq!(m.port, 80);
    assert_eq!(m.target_port, 54321);
}

#[test]
fn test_ingress_end_to_end() {
    let m = h2o_ingress("h2o", "prod").unwrap();
    assert_eq!(m.api_version, "networking.k8s.io/v1");
    assert_eq!(m.kind, "Ingress");
    assert_eq!(m.name, "h2o-ingress");
    assert_eq!(m.namespace, "prod");
    assert_eq!(m.backend_service_name, "h2o-service");
    assert_eq!(m.backend_service_port, 80);
}

#[test]
fn test_labels_match_for_other_names() {
    let m = h2o_stateful_set("cluster-a1", "default", "h2oai/h2o", "latest").unwrap();
    assert_eq!(m.selector_app, "cluster-a1");
    assert_eq!(m.template_app, "cluster-a1");
    let s = h2o_service("cluster-a1", "default").unwrap();
    assert_eq!(s.selector_app, "cluster-a1");
}

#[test]
fn test_cross_document_names() {
    let w = h2o_stateful_set("demo", "default", "h2oai/h2o", "3.32").unwrap();
    let s = h2o_service("demo", "default").unwrap();
    let i = h2o_ingress("demo", "default").unwrap();
    assert_eq!(w.name, "demo-stateful-set");
    assert_eq!(w.service_name, s.name);
    assert_eq!(i.backend_service_name, s.name);
    assert_eq!(i.backend_service_port, s.port);
    assert_eq!(
        w.env[0].value,
        format!("{}.{}.svc.cluster.local", s.name, s.namespace)
    );
}

#[test]
fn test_builds_are_idempotent() {
    let w1 = h2o_stateful_set("h2o", "prod", "h2oai/h2o", "3.32").unwrap();
    let w2 = h2o_stateful_set("h2o", "prod", "h2oai/h2o", "3.32").unwrap();
    assert_eq!(w1, w2);
    let s1 = h2o_service("h2o", "prod").unwrap();
    let s2 = h2o_service("h2o", "prod").unwrap();
    assert_eq!(s1, s2);
    let i1 = h2o_ingress("h2o", "prod").unwrap();
    let i2 = h2o_ingress("h2o", "prod").unwrap();
    assert_eq!(i1, i2);
}

#[test]
fn test_fixed_values_do_not_depend_on_inputs() {
    let w1 = h2o_stateful_set("alpha", "default", "img", "1").unwrap();
    let w2 = h2o_stateful_set("omega-9", "prod", "other/img", "2.0").unwrap();
    assert_eq!(w1.container_port, 54321);
    assert_eq!(w2.container_port, 54321);
    assert_eq!(w1.replicas, 3);
    assert_eq!(w2.replicas, 3);
    let s1 = h2o_service("alpha", "default").unwrap();
    let s2 = h2o_service("omega-9", "prod").unwrap();
    assert_eq!(s1.port, 80);
    assert_eq!(s1.target_port, 54321);
    assert_eq!(s2.port, 80);
    assert_eq!(s2.target_port, 54321);
}

#[test]
fn test_invalid_name_rejected() {
    let e = h2o_stateful_set("H2O", "default", "h2oai/h2o", "3.32").unwrap_err();
    assert_eq!(e.kind, ResourceKind::StatefulSet);
    assert_eq!(e.text, "H2O");

    let e = h2o_service("h2o\"}{", "default").unwrap_err();
    assert_eq!(e.kind, ResourceKind::Service);
    assert_eq!(e.text, "h2o\"}{");

    let e = h2o_ingress("h2o ingress", "default").unwrap_err();
    assert_eq!(e.kind, ResourceKind::Ingress);
    assert_eq!(e.text, "h2o ingress");
}

#[test]
fn test_invalid_namespace_rejected() {
    let e = h2o_stateful_set("h2o", "Prod!", "h2oai/h2o", "3.32").unwrap_err();
    assert_eq!(e.kind, ResourceKind::StatefulSet);
    assert_eq!(e.text, "Prod!");

    let e = h2o_service("h2o", "").unwrap_err();
    assert_eq!(e.kind, ResourceKind::Service);
    assert_eq!(e.text, "");

    let e = h2o_ingress("h2o", "ns_underscore").unwrap_err();
    assert_eq!(e.kind, ResourceKind::Ingress);
    assert_eq!(e.text, "ns_underscore");
}

#[test]
fn test_name_length_bounds() {
    let longest = "a".repeat(63);
    let m = h2o_service(&longest, "default").unwrap();
    assert_eq!(m.name, format!("{}-service", longest));

    let too_long = "a".repeat(64);
    let e = h2o_service(&too_long, "default").unwrap_err();
    assert_eq!(e.text, too_long);

    let e = h2o_service("", "default").unwrap_err();
    assert_eq!(e.text, "");
}
