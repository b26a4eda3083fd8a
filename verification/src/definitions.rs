//! Typed manifest documents for the three resources this tool deploys, and
//! the builders that derive every field of them from the user-supplied
//! inputs. Building a manifest as a typed document (rather than pasting
//! values into serialized text) removes any injection vector: a value either
//! passes resource-name validation and lands in its own field, or the build
//! is rejected.

use crate::names::is_valid_resource_name;
use crate::names::valid_resource_name;
use crate::names::spec_stateful_set_name;
use crate::names::spec_service_name;
use crate::names::spec_ingress_name;
use crate::names::spec_service_dns_name;
use crate::names::spec_image_ref;
use crate::names::stateful_set_name;
use crate::names::service_name;
use crate::names::ingress_name;
use crate::names::service_dns_name;
use crate::names::image_ref;
use vstd::prelude::*;

verus! {

/// Replicas the workload is deployed with.
pub const REPLICA_COUNT: u32 = 3;

/// Port the workload container listens on.
pub const CONTAINER_PORT: u16 = 54321;

/// Port the service exposes; it forwards to `CONTAINER_PORT`.
pub const SERVICE_PORT: u16 = 80;

/// Port of the workload's internal API, probed for readiness and announced
/// to the container through its environment.
pub const INTERNAL_API_PORT: u16 = 8081;

/// Seconds before the first readiness probe.
pub const PROBE_INITIAL_DELAY_SECONDS: u32 = 5;

/// Seconds between readiness probes.
pub const PROBE_PERIOD_SECONDS: u32 = 5;

/// Failed probes after which an instance is considered not ready.
pub const PROBE_FAILURE_THRESHOLD: u32 = 1;

/// The resource kind a build failure is reported for.
#[derive(Clone, Copy, Debug, PartialEq, Eq, Structural)]
pub enum ResourceKind {
    StatefulSet,
    Service,
    Ingress,
}

/// A rejected build: the kind of document under construction and the
/// offending input value.
#[derive(Debug, PartialEq)]
pub struct ParseError {
    pub kind: ResourceKind,
    pub text: String,
}

/// One environment variable handed to the workload container.
#[derive(Debug, PartialEq)]
pub struct EnvVar {
    pub name: String,
    pub value: String,
}

/// Mathematical model of an environment variable.
#[verifier::ext_equal]
pub ghost struct EnvVarModel {
    pub name: Seq<char>,
    pub value: Seq<char>,
}

impl View for EnvVar {
    type V = EnvVarModel;

    open spec fn view(&self) -> EnvVarModel {
        EnvVarModel { name: self.name@, value: self.value@ }
    }
}

/// HTTP readiness check the orchestrator runs against each instance.
#[derive(Debug, PartialEq)]
pub struct ReadinessProbe {
    pub path: String,
    pub port: u16,
    pub initial_delay_seconds: u32,
    pub period_seconds: u32,
    pub failure_threshold: u32,
}

/// Mathematical model of a readiness probe.
#[verifier::ext_equal]
pub ghost struct ReadinessProbeModel {
    pub path: Seq<char>,
    pub port: int,
    pub initial_delay_seconds: int,
    pub period_seconds: int,
    pub failure_threshold: int,
}

impl View for ReadinessProbe {
    type V = ReadinessProbeModel;

    open spec fn view(&self) -> ReadinessProbeModel {
        ReadinessProbeModel {
            path: self.path@,
            port: self.port as int,
            initial_delay_seconds: self.initial_delay_seconds as int,
            period_seconds: self.period_seconds as int,
            failure_threshold: self.failure_threshold as int,
        }
    }
}

/// The stateful workload document: a replicated set of instances with fixed
/// identities, one container each, selected by the `app` label.
#[derive(Debug, PartialEq)]
pub struct WorkloadManifest {
    pub api_version: String,
    pub kind: String,
    pub name: String,
    pub service_name: String,
    pub replicas: u32,
    pub selector_app: String,
    pub template_app: String,
    pub container_name: String,
    pub image: String,
    pub container_port: u16,
    pub protocol: String,
    pub readiness_probe: ReadinessProbe,
    pub env: Vec<EnvVar>,
}

/// Mathematical model of the workload document.
#[verifier::ext_equal]
pub ghost struct WorkloadModel {
    pub api_version: Seq<char>,
    pub kind: Seq<char>,
    pub name: Seq<char>,
    pub service_name: Seq<char>,
    pub replicas: int,
    pub selector_app: Seq<char>,
    pub template_app: Seq<char>,
    pub container_name: Seq<char>,
    pub image: Seq<char>,
    pub container_port: int,
    pub protocol: Seq<char>,
    pub readiness_probe: ReadinessProbeModel,
    pub env: Seq<EnvVarModel>,
}

impl View for WorkloadManifest {
    type V = WorkloadModel;

    open spec fn view(&self) -> WorkloadModel {
        WorkloadModel {
            api_version: self.api_version@,
            kind: self.kind@,
            name: self.name@,
            service_name: self.service_name@,
            replicas: self.replicas as int,
            selector_app: self.selector_app@,
            template_app: self.template_app@,
            container_name: self.container_name@,
            image: self.image@,
            container_port: self.container_port as int,
            protocol: self.protocol@,
            readiness_probe: self.readiness_probe@,
            env: self.env@.map_values(|e: EnvVar| e@),
        }
    }
}

/// The workload document every successful build returns: every field is a
/// function of the four inputs.
pub open spec fn spec_workload_manifest(
    name: Seq<char>,
    namespace: Seq<char>,
    img_name: Seq<char>,
    img_tag: Seq<char>,
) -> WorkloadModel {
    WorkloadModel {
        api_version: "apps/v1"@,
        kind: "StatefulSet"@,
        name: spec_stateful_set_name(name),
        service_name: spec_service_name(name),
        replicas: REPLICA_COUNT as int,
        selector_app: name,
        template_app: name,
        container_name: name,
        image: spec_image_ref(img_name, img_tag),
        container_port: CONTAINER_PORT as int,
        protocol: "TCP"@,
        readiness_probe: ReadinessProbeModel {
            path: "/kubernetes/isLeaderNode"@,
            port: INTERNAL_API_PORT as int,
            initial_delay_seconds: PROBE_INITIAL_DELAY_SECONDS as int,
            period_seconds: PROBE_PERIOD_SECONDS as int,
            failure_threshold: PROBE_FAILURE_THRESHOLD as int,
        },
        env: seq![
            EnvVarModel {
                name: "H2O_KUBERNETES_SERVICE_DNS"@,
                value: spec_service_dns_name(name, namespace),
            },
            EnvVarModel { name: "H2O_NODE_LOOKUP_TIMEOUT"@, value: "180"@ },
            EnvVarModel { name: "H2O_NODE_EXPECTED_COUNT"@, value: "3"@ },
            EnvVarModel { name: "H2O_KUBERNETES_API_PORT"@, value: "8081"@ },
        ],
    }
}

/// Builds the stateful workload document for `name` in `namespace`, running
/// the image `docker_img_name:docker_img_tag`. Succeeds exactly when `name`
/// and `namespace` are valid resource names; a rejected build reports the
/// offending input.
pub fn h2o_stateful_set(
    name: &str,
    namespace: &str,
    docker_img_name: &str,
    docker_img_tag: &str,
) -> (r: Result<WorkloadManifest, ParseError>)
    ensures
        r is Ok <==> valid_resource_name(name@) && valid_resource_name(namespace@),
        r is Ok ==> r->Ok_0@ == spec_workload_manifest(
            name@,
            namespace@,
            docker_img_name@,
            docker_img_tag@,
        ),
        r is Err ==> r->Err_0.kind == ResourceKind::StatefulSet,
        r is Err ==> r->Err_0.text@ == (if !valid_resource_name(name@) {
            name@
        } else {
            namespace@
        }),
{
    if !is_valid_resource_name(name) {
        return Result::Err(ParseError { kind: ResourceKind::StatefulSet, text: name.to_owned() });
    }
    if !is_valid_resource_name(namespace) {
        return Result::Err(
            ParseError { kind: ResourceKind::StatefulSet, text: namespace.to_owned() },
        );
    }
    let mut env: Vec<EnvVar> = Vec::new();
    env.push(
        EnvVar {
            name: "H2O_KUBERNETES_SERVICE_DNS".to_owned(),
            value: service_dns_name(name, namespace),
        },
    );
    env.push(EnvVar { name: "H2O_NODE_LOOKUP_TIMEOUT".to_owned(), value: "180".to_owned() });
    env.push(EnvVar { name: "H2O_NODE_EXPECTED_COUNT".to_owned(), value: "3".to_owned() });
    env.push(EnvVar { name: "H2O_KUBERNETES_API_PORT".to_owned(), value: "8081".to_owned() });
    let manifest = WorkloadManifest {
        api_version: "apps/v1".to_owned(),
        kind: "StatefulSet".to_owned(),
        name: stateful_set_name(name),
        service_name: service_name(name),
        replicas: REPLICA_COUNT,
        selector_app: name.to_owned(),
        template_app: name.to_owned(),
        container_name: name.to_owned(),
        image: image_ref(docker_img_name, docker_img_tag),
        container_port: CONTAINER_PORT,
        protocol: "TCP".to_owned(),
        readiness_probe: ReadinessProbe {
            path: "/kubernetes/isLeaderNode".to_owned(),
            port: INTERNAL_API_PORT,
            initial_delay_seconds: PROBE_INITIAL_DELAY_SECONDS,
            period_seconds: PROBE_PERIOD_SECONDS,
            failure_threshold: PROBE_FAILURE_THRESHOLD,
        },
        env,
    };
    proof {
        assert(manifest@ =~~= spec_workload_manifest(
            name@,
            namespace@,
            docker_img_name@,
            docker_img_tag@,
        ));
    }
    Result::Ok(manifest)
}

/// The headless service document: no virtual cluster IP, instances are
/// addressed directly; selects the workload's pods by the `app` label and
/// forwards `SERVICE_PORT` to `CONTAINER_PORT`.
#[derive(Debug, PartialEq)]
pub struct ServiceManifest {
    pub api_version: String,
    pub kind: String,
    pub name: String,
    pub namespace: String,
    pub service_type: String,
    pub cluster_ip: String,
    pub selector_app: String,
    pub protocol: String,
    pub port: u16,
    pub target_port: u16,
}

/// Mathematical model of the service document.
#[verifier::ext_equal]
pub ghost struct ServiceModel {
    pub api_version: Seq<char>,
    pub kind: Seq<char>,
    pub name: Seq<char>,
    pub namespace: Seq<char>,
    pub service_type: Seq<char>,
    pub cluster_ip: Seq<char>,
    pub selector_app: Seq<char>,
    pub protocol: Seq<char>,
    pub port: int,
    pub target_port: int,
}

impl View for ServiceManifest {
    type V = ServiceModel;

    open spec fn view(&self) -> ServiceModel {
        ServiceModel {
            api_version: self.api_version@,
            kind: self.kind@,
            name: self.name@,
            namespace: self.namespace@,
            service_type: self.service_type@,
            cluster_ip: self.cluster_ip@,
            selector_app: self.selector_app@,
            protocol: self.protocol@,
            port: self.port as int,
            target_port: self.target_port as int,
        }
    }
}

/// The service document every successful build returns. The pod selector is
/// derived from `name`, matching the label the workload document applies to
/// its pod template.
pub open spec fn spec_service_manifest(name: Seq<char>, namespace: Seq<char>) -> ServiceModel {
    ServiceModel {
        api_version: "v1"@,
        kind: "Service"@,
        name: spec_service_name(name),
        namespace: namespace,
        service_type: "ClusterIP"@,
        cluster_ip: "None"@,
        selector_app: name,
        protocol: "TCP"@,
        port: SERVICE_PORT as int,
        target_port: CONTAINER_PORT as int,
    }
}

/// Builds the headless service document for `name` in `namespace`. Succeeds
/// exactly when `name` and `namespace` are valid resource names; a rejected
/// build reports the offending input.
pub fn h2o_service(name: &str, namespace: &str) -> (r: Result<ServiceManifest, ParseError>)
    ensures
        r is Ok <==> valid_resource_name(name@) && valid_resource_name(namespace@),
        r is Ok ==> r->Ok_0@ == spec_service_manifest(name@, namespace@),
        r is Err ==> r->Err_0.kind == ResourceKind::Service,
        r is Err ==> r->Err_0.text@ == (if !valid_resource_name(name@) {
            name@
        } else {
            namespace@
        }),
{
    if !is_valid_resource_name(name) {
        return Result::Err(ParseError { kind: ResourceKind::Service, text: name.to_owned() });
    }
    if !is_valid_resource_name(namespace) {
        return Result::Err(ParseError { kind: ResourceKind::Service, text: namespace.to_owned() });
    }
    let manifest = ServiceManifest {
        api_version: "v1".to_owned(),
        kind: "Service".to_owned(),
        name: service_name(name),
        namespace: namespace.to_owned(),
        service_type: "ClusterIP".to_owned(),
        cluster_ip: "None".to_owned(),
        selector_app: name.to_owned(),
        protocol: "TCP".to_owned(),
        port: SERVICE_PORT,
        target_port: CONTAINER_PORT,
    };
    proof {
        assert(manifest@ =~~= spec_service_manifest(name@, namespace@));
    }
    Result::Ok(manifest)
}

/// The ingress document: routes all incoming traffic to the service on the
/// port the service exposes.
#[derive(Debug, PartialEq)]
pub struct IngressManifest {
    pub api_version: String,
    pub kind: String,
    pub name: String,
    pub namespace: String,
    pub backend_service_name: String,
    pub backend_service_port: u16,
}

/// Mathematical model of the ingress document.
#[verifier::ext_equal]
pub ghost struct IngressModel {
    pub api_version: Seq<char>,
    pub kind: Seq<char>,
    pub name: Seq<char>,
    pub namespace: Seq<char>,
    pub backend_service_name: Seq<char>,
    pub backend_service_port: int,
}

impl View for IngressManifest {
    type V = IngressModel;

    open spec fn view(&self) -> IngressModel {
        IngressModel {
            api_version: self.api_version@,
            kind: self.kind@,
            name: self.name@,
            namespace: self.namespace@,
            backend_service_name: self.backend_service_name@,
            backend_service_port: self.backend_service_port as int,
        }
    }
}

/// The ingress document every successful build returns. Its backend names
/// exactly the service the service builder produces.
pub open spec fn spec_ingress_manifest(name: Seq<char>, namespace: Seq<char>) -> IngressModel {
    IngressModel {
        api_version: "networking.k8s.io/v1"@,
        kind: "Ingress"@,
        name: spec_ingress_name(name),
        namespace: namespace,
        backend_service_name: spec_service_name(name),
        backend_service_port: SERVICE_PORT as int,
    }
}

/// Builds the ingress document for `name` in `namespace`. Succeeds exactly
/// when `name` and `namespace` are valid resource names; a rejected build
/// reports the offending input.
pub fn h2o_ingress(name: &str, namespace: &str) -> (r: Result<IngressManifest, ParseError>)
    ensures
        r is Ok <==> valid_resource_name(name@) && valid_resource_name(namespace@),
        r is Ok ==> r->Ok_0@ == spec_ingress_manifest(name@, namespace@),
        r is Err ==> r->Err_0.kind == ResourceKind::Ingress,
        r is Err ==> r->Err_0.text@ == (if !valid_resource_name(name@) {
            name@
        } else {
            namespace@
        }),
{
    if !is_valid_resource_name(name) {
        return Result::Err(ParseError { kind: ResourceKind::Ingress, text: name.to_owned() });
    }
    if !is_valid_resource_name(namespace) {
        return Result::Err(ParseError { kind: ResourceKind::Ingress, text: namespace.to_owned() });
    }
    let manifest = IngressManifest {
        api_version: "networking.k8s.io/v1".to_owned(),
        kind: "Ingress".to_owned(),
        name: ingress_name(name),
        namespace: namespace.to_owned(),
        backend_service_name: service_name(name),
        backend_service_port: SERVICE_PORT,
    };
    proof {
        assert(manifest@ =~~= spec_ingress_manifest(name@, namespace@));
    }
    Result::Ok(manifest)
}

/// Law: for all inputs, the workload document's pod-selector label and its
/// pod-template label are both exactly the workload name, so the controller
/// always matches the pods it creates.
pub proof fn lemma_workload_labels_match(
    name: Seq<char>,
    namespace: Seq<char>,
    img_name: Seq<char>,
    img_tag: Seq<char>,
)
    ensures
        spec_workload_manifest(name, namespace, img_name, img_tag).selector_app == name,
        spec_workload_manifest(name, namespace, img_name, img_tag).template_app == name,
{
}

/// Law: for all inputs, the three documents name each other consistently:
/// the workload is `<name>-stateful-set`, the service is `<name>-service`,
/// the workload points at the service by that exact name, and so does the
/// ingress backend.
pub proof fn lemma_resource_name_consistency(
    name: Seq<char>,
    namespace: Seq<char>,
    img_name: Seq<char>,
    img_tag: Seq<char>,
)
    ensures
        spec_workload_manifest(name, namespace, img_name, img_tag).name == spec_stateful_set_name(
            name,
        ),
        spec_service_manifest(name, namespace).name == spec_service_name(name),
        spec_workload_manifest(name, namespace, img_name, img_tag).service_name
            == spec_service_manifest(name, namespace).name,
        spec_ingress_manifest(name, namespace).backend_service_name == spec_service_manifest(
            name,
            namespace,
        ).name,
{
}

/// Law: for all inputs, the workload document's discovery environment
/// variable holds the DNS name `<name>-service.<namespace>.svc.cluster.local`,
/// which qualifies exactly the name of the service document.
pub proof fn lemma_workload_dns_env(
    name: Seq<char>,
    namespace: Seq<char>,
    img_name: Seq<char>,
    img_tag: Seq<char>,
)
    ensures
        spec_workload_manifest(name, namespace, img_name, img_tag).env[0].name
            == "H2O_KUBERNETES_SERVICE_DNS"@,
        spec_workload_manifest(name, namespace, img_name, img_tag).env[0].value
            == spec_service_dns_name(name, namespace),
        spec_service_dns_name(name, namespace) == name + "-service."@ + namespace
            + ".svc.cluster.local"@,
        spec_service_dns_name(name, namespace) == spec_service_manifest(name, namespace).name
            + "."@ + namespace + ".svc.cluster.local"@,
{
    reveal_strlit("-service");
    reveal_strlit(".");
    reveal_strlit("-service.");
    assert(spec_service_name(name) + "."@ =~= name + "-service."@);
}

/// Law: building the workload document twice from identical inputs yields
/// structurally identical documents.
pub proof fn lemma_workload_build_deterministic(
    m1: WorkloadManifest,
    m2: WorkloadManifest,
    name: Seq<char>,
    namespace: Seq<char>,
    img_name: Seq<char>,
    img_tag: Seq<char>,
)
    requires
        m1@ == spec_workload_manifest(name, namespace, img_name, img_tag),
        m2@ == spec_workload_manifest(name, namespace, img_name, img_tag),
    ensures
        m1@ == m2@,
{
}

/// Law: building the service document twice from identical inputs yields
/// structurally identical documents.
pub proof fn lemma_service_build_deterministic(
    m1: ServiceManifest,
    m2: ServiceManifest,
    name: Seq<char>,
    namespace: Seq<char>,
)
    requires
        m1@ == spec_service_manifest(name, namespace),
        m2@ == spec_service_manifest(name, namespace),
    ensures
        m1@ == m2@,
{
}

/// Law: building the ingress document twice from identical inputs yields
/// structurally identical documents.
pub proof fn lemma_ingress_build_deterministic(
    m1: IngressManifest,
    m2: IngressManifest,
    name: Seq<char>,
    namespace: Seq<char>,
)
    requires
        m1@ == spec_ingress_manifest(name, namespace),
        m2@ == spec_ingress_manifest(name, namespace),
    ensures
        m1@ == m2@,
{
}

/// Law: whatever the inputs, the fixed wiring never changes: the container
/// listens on 54321, the service forwards 80 to 54321, the ingress routes to
/// the service's port 80, and the workload runs 3 replicas.
pub proof fn lemma_fixed_values(
    name: Seq<char>,
    namespace: Seq<char>,
    img_name: Seq<char>,
    img_tag: Seq<char>,
)
    ensures
        spec_workload_manifest(name, namespace, img_name, img_tag).container_port == 54321,
        spec_workload_manifest(name, namespace, img_name, img_tag).replicas == 3,
        spec_service_manifest(name, namespace).port == 80,
        spec_service_manifest(name, namespace).target_port == 54321,
        spec_ingress_manifest(name, namespace).backend_service_port == spec_service_manifest(
            name,
            namespace,
        ).port,
{
}

} // verus!
