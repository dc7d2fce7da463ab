//! The objects that install the watchdog in a namespace: a service account, a role that may
//! delete namespaces, a binding of the one to the other, and the deployment that runs the
//! watchdog under that service account.
use crate::kinds::{role_kind, service_account_kind};
use crate::objects::{
    entries, texts, Container, ContainerView, Deployment, DeploymentSpec, DeploymentSpecView,
    DeploymentStrategy, DeploymentStrategyView, DeploymentView, LabelSelector, LabelSelectorView,
    Namespace, NamespaceView, ObjectMeta, ObjectMetaView, PodSpec, PodSpecView, PodTemplateSpec,
    PodTemplateSpecView, PolicyRule, PolicyRuleView, ResourceRequirements, ResourceRequirementsView,
    Role, RoleBinding, RoleBindingView, RoleRef, RoleRefView, RoleView, ServiceAccount,
    ServiceAccountView, Subject, SubjectView,
};
use crate::ss;
use vstd::prelude::*;
use vstd::string::StringExecFns;

verus! {

/// Name of the Kubernetes objects that the watchdog creates, and its field manager.
pub const CN: &'static str = "namespace-watchdog";

/// Version of the watchdog image that the installing process deploys.
pub const IMAGE_VERSION: &'static str = "0.1.0";

/// The metadata shared by the watchdog's objects.
pub open spec fn spec_metadata(namespace: Seq<char>) -> ObjectMetaView {
    ObjectMetaView { name: Some(CN@), namespace: Some(namespace), labels: None }
}

pub open spec fn spec_role(namespace: Seq<char>) -> RoleView {
    RoleView {
        metadata: spec_metadata(namespace),
        rules: Some(
            seq![
                PolicyRuleView {
                    api_groups: Some(seq![""@]),
                    resources: Some(seq!["namespaces"@]),
                    verbs: seq!["delete"@],
                },
            ],
        ),
    }
}

pub open spec fn spec_service_account(namespace: Seq<char>) -> ServiceAccountView {
    ServiceAccountView { metadata: spec_metadata(namespace) }
}

pub open spec fn spec_role_binding(namespace: Seq<char>) -> RoleBindingView {
    RoleBindingView {
        metadata: spec_metadata(namespace),
        role_ref: RoleRefView {
            api_group: "rbac.authorization.k8s.io"@,
            kind: "Role"@,
            name: CN@,
        },
        subjects: Some(
            seq![
                SubjectView { kind: "ServiceAccount"@, name: CN@, namespace: Some(namespace) },
            ],
        ),
    }
}

pub open spec fn spec_namespace(namespace: Seq<char>) -> NamespaceView {
    NamespaceView { metadata: ObjectMetaView { name: Some(namespace), ..ObjectMetaView::empty() } }
}

/// The labels of the watchdog's pods.
pub open spec fn spec_pod_labels() -> Seq<(Seq<char>, Seq<char>)> {
    seq![("name"@, CN@)]
}

/// The resources that the watchdog's container asks for, and is limited to.
pub open spec fn spec_quantities() -> Seq<(Seq<char>, Seq<char>)> {
    seq![("cpu"@, "5m"@), ("memory"@, "10M"@)]
}

/// A deployment of one watchdog pod with the given arguments, image and pull policy.
pub open spec fn spec_deployment_of(
    namespace: Seq<char>,
    args: Seq<Seq<char>>,
    image: Seq<char>,
    pull_policy: Seq<char>,
) -> DeploymentView {
    DeploymentView {
        metadata: spec_metadata(namespace),
        spec: Some(
            DeploymentSpecView {
                replicas: Some(1),
                strategy: Some(DeploymentStrategyView { type_: Some("Recreate"@) }),
                selector: LabelSelectorView { match_labels: Some(spec_pod_labels()) },
                template: PodTemplateSpecView {
                    metadata: Some(
                        ObjectMetaView {
                            labels: Some(spec_pod_labels()),
                            ..ObjectMetaView::empty()
                        },
                    ),
                    spec: Some(
                        PodSpecView {
                            service_account_name: Some(CN@),
                            containers: seq![
                                ContainerView {
                                    name: "main"@,
                                    args: Some(args),
                                    image: Some(image),
                                    image_pull_policy: Some(pull_policy),
                                    resources: Some(
                                        ResourceRequirementsView {
                                            limits: Some(spec_quantities()),
                                            requests: Some(spec_quantities()),
                                        },
                                    ),
                                },
                            ],
                        },
                    ),
                },
            },
        ),
    }
}

/// The deployment that the installing process keeps alive: fixed arguments, a versioned image.
pub open spec fn spec_deployment(namespace: Seq<char>) -> DeploymentView {
    spec_deployment_of(
        namespace,
        seq!["--initial-timeout=60 seconds"@, "--listen=0.0.0.0:8080"@],
        "liftm/kubernetes-"@ + CN@ + ":"@ + IMAGE_VERSION@,
        "IfNotPresent"@,
    )
}

/// The metadata of the watchdog's objects in `namespace`.
pub fn metadata(namespace: &str) -> (m: ObjectMeta)
    ensures
        m@ == spec_metadata(namespace@),
{
    ObjectMeta { name: ss(CN), namespace: ss(namespace), labels: None }
}

/// A role that may delete namespaces, and nothing else.
pub fn role(namespace: &str) -> (r: Role)
    ensures
        r@ == spec_role(namespace@),
{
    let rule = PolicyRule {
        api_groups: Some(vec!["".to_owned()]),
        resources: Some(vec!["namespaces".to_owned()]),
        verbs: vec!["delete".to_owned()],
    };
    assert(texts(rule.api_groups->0) =~= seq![""@]);
    assert(texts(rule.resources->0) =~= seq!["namespaces"@]);
    assert(texts(rule.verbs) =~= seq!["delete"@]);
    let rules = vec![rule];
    let r = Role { metadata: metadata(namespace), rules: Some(rules) };
    assert(r@.rules->0 =~= spec_role(namespace@).rules->0);
    r
}

/// The watchdog's service account.
pub fn service_account(namespace: &str) -> (s: ServiceAccount)
    ensures
        s@ == spec_service_account(namespace@),
{
    ServiceAccount { metadata: metadata(namespace) }
}

/// A binding of the watchdog's role to its service account.
pub fn role_binding(namespace: &str) -> (b: RoleBinding)
    ensures
        b@ == spec_role_binding(namespace@),
{
    let role_ref = RoleRef {
        api_group: "rbac.authorization.k8s.io".to_owned(),
        kind: role_kind(),
        name: role(namespace).metadata.name_unchecked(),
    };
    let subject = Subject {
        kind: service_account_kind(),
        name: service_account(namespace).metadata.name_unchecked(),
        namespace: ss(namespace),
    };
    let subjects = vec![subject];
    let b = RoleBinding { metadata: metadata(namespace), role_ref, subjects: Some(subjects) };
    assert(b@.subjects->0 =~= spec_role_binding(namespace@).subjects->0);
    b
}

/// The namespace named `namespace`.
pub fn namespace(name: &str) -> (n: Namespace)
    ensures
        n@ == spec_namespace(name@),
{
    Namespace { metadata: ObjectMeta { name: ss(name), ..crate::default() } }
}

fn pod_labels() -> (l: Vec<(String, String)>)
    ensures
        entries(l) == spec_pod_labels(),
{
    let l = vec![("name".to_owned(), CN.to_owned())];
    assert(entries(l) =~= spec_pod_labels());
    l
}

fn quantities() -> (q: Vec<(String, String)>)
    ensures
        entries(q) == spec_quantities(),
{
    let q = vec![("cpu".to_owned(), "5m".to_owned()), ("memory".to_owned(), "10M".to_owned())];
    assert(entries(q) =~= spec_quantities());
    q
}

/// A deployment of one watchdog pod with the given arguments, image and pull policy.
pub fn deployment_of(
    namespace: &str,
    args: Vec<String>,
    image: String,
    pull_policy: &str,
) -> (d: Deployment)
    ensures
        d@ == spec_deployment_of(namespace@, texts(args), image@, pull_policy@),
        d@.spec is Some,
        d@.spec->0.template.spec is Some,
        d@.spec->0.template.spec->0.containers.len() == 1,
        d@.spec->0.template.spec->0.containers[0].name == "main"@,
        d@.spec->0.template.spec->0.containers[0].args == Some(texts(args)),
        d@.spec->0.template.spec->0.containers[0].image == Some(image@),
        d@.spec->0.template.spec->0.containers[0].image_pull_policy == Some(pull_policy@),
{
    let ghost arg_texts = texts(args);
    let container = Container {
        name: "main".to_owned(),
        args: Some(args),
        image: Some(image),
        image_pull_policy: ss(pull_policy),
        resources: Some(ResourceRequirements { limits: Some(quantities()), requests: Some(quantities()) }),
    };
    let containers = vec![container];
    let d = Deployment {
        metadata: metadata(namespace),
        spec: Some(
            DeploymentSpec {
                replicas: Some(1),
                strategy: Some(DeploymentStrategy { type_: ss("Recreate") }),
                selector: LabelSelector { match_labels: Some(pod_labels()) },
                template: PodTemplateSpec {
                    metadata: Some(ObjectMeta { name: None, namespace: None, labels: Some(pod_labels()) }),
                    spec: Some(PodSpec { service_account_name: ss(CN), containers }),
                },
            },
        ),
    };
    assert(d@.spec->0.template.spec->0.containers =~= spec_deployment_of(
        namespace@,
        arg_texts,
        image@,
        pull_policy@,
    ).spec->0.template.spec->0.containers);
    d
}

/// The deployment of the watchdog that the installing process keeps alive.
pub fn deployment(namespace: &str) -> (d: Deployment)
    ensures
        d@ == spec_deployment(namespace@),
{
    let args = vec!["--initial-timeout=60 seconds".to_owned(), "--listen=0.0.0.0:8080".to_owned()];
    assert(texts(args) =~= seq!["--initial-timeout=60 seconds"@, "--listen=0.0.0.0:8080"@]);
    let image = "liftm/kubernetes-".to_owned().concat(CN).concat(":").concat(IMAGE_VERSION);
    deployment_of(namespace, args, image, "IfNotPresent")
}

/// The watchdog's objects fit together: the binding grants the watchdog's role, which may
/// only delete namespaces, to the watchdog's service account in the same namespace; and the
/// deployment runs its pods under that service account and selects them by their labels.
pub proof fn lemma_objects_fit_together(
    namespace: Seq<char>,
    args: Seq<Seq<char>>,
    image: Seq<char>,
    pull_policy: Seq<char>,
)
    ensures
        ({
            let r = spec_role(namespace);
            let s = spec_service_account(namespace);
            let b = spec_role_binding(namespace);
            let d = spec_deployment_of(namespace, args, image, pull_policy);
            &&& b.role_ref.api_group == "rbac.authorization.k8s.io"@
            &&& b.role_ref.kind == "Role"@
            &&& Some(b.role_ref.name) == r.metadata.name
            &&& b.metadata.namespace == r.metadata.namespace
            &&& r.rules->0.len() == 1
            &&& r.rules->0[0].verbs == seq!["delete"@]
            &&& r.rules->0[0].resources == Some(seq!["namespaces"@])
            &&& b.subjects->0.len() == 1
            &&& b.subjects->0[0].kind == "ServiceAccount"@
            &&& Some(b.subjects->0[0].name) == s.metadata.name
            &&& b.subjects->0[0].namespace == s.metadata.namespace
            &&& d.metadata.namespace == s.metadata.namespace
            &&& d.spec->0.template.spec->0.service_account_name == s.metadata.name
            &&& d.spec->0.selector.match_labels == d.spec->0.template.metadata->0.labels
        }),
{
}

/// The watchdog's deployment runs exactly one pod of exactly one container, `main`, with the
/// given arguments, image and pull policy, asking for and limited to 5m of cpu and 10M of
/// memory; its pods carry the sole label `name: namespace-watchdog`, by which it selects them,
/// run under the watchdog's service account, and are replaced by recreation.
pub proof fn lemma_deployment_runs_one_main_container(
    namespace: Seq<char>,
    args: Seq<Seq<char>>,
    image: Seq<char>,
    pull_policy: Seq<char>,
)
    ensures
        ({
            let d = spec_deployment_of(namespace, args, image, pull_policy);
            let spec = d.spec->0;
            let pod = spec.template.spec->0;
            let quantities = seq![("cpu"@, "5m"@), ("memory"@, "10M"@)];
            let labels = seq![("name"@, CN@)];
            &&& d.spec is Some
            &&& d.metadata.name == Some(CN@)
            &&& d.metadata.namespace == Some(namespace)
            &&& spec.replicas == Some(1i32)
            &&& spec.strategy == Some(DeploymentStrategyView { type_: Some("Recreate"@) })
            &&& spec.selector.match_labels == Some(labels)
            &&& spec.template.metadata is Some
            &&& spec.template.metadata->0.labels == Some(labels)
            &&& spec.template.spec is Some
            &&& pod.service_account_name == Some(CN@)
            &&& pod.containers.len() == 1
            &&& pod.containers[0].name == "main"@
            &&& pod.containers[0].args == Some(args)
            &&& pod.containers[0].image == Some(image)
            &&& pod.containers[0].image_pull_policy == Some(pull_policy)
            &&& pod.containers[0].resources is Some
            &&& pod.containers[0].resources->0.limits == Some(quantities)
            &&& pod.containers[0].resources->0.requests == Some(quantities)
        }),
{
}

/// The installing process's own deployment runs the watchdog for 60 seconds from start,
/// listening on port 8080, from the image of this version, pulled only when missing.
pub proof fn lemma_owner_deployment_settings(namespace: Seq<char>)
    ensures
        ({
            let c = spec_deployment(namespace).spec->0.template.spec->0.containers;
            &&& c.len() == 1
            &&& c[0].args == Some(
                seq!["--initial-timeout=60 seconds"@, "--listen=0.0.0.0:8080"@],
            )
            &&& c[0].image == Some("liftm/kubernetes-"@ + CN@ + ":"@ + IMAGE_VERSION@)
            &&& c[0].image_pull_policy == Some("IfNotPresent"@)
        }),
{
}

/// The watchdog's role holds exactly one rule, which allows only `delete` on `namespaces` of
/// the core API group; all the watchdog's objects are named after it in the watched
/// namespace, and a namespace object carries only its name.
pub proof fn lemma_role_may_only_delete_namespaces(namespace: Seq<char>)
    ensures
        spec_role(namespace).rules == Some(
            seq![
                PolicyRuleView {
                    api_groups: Some(seq![""@]),
                    resources: Some(seq!["namespaces"@]),
                    verbs: seq!["delete"@],
                },
            ],
        ),
        spec_role(namespace).metadata.name == Some(CN@),
        spec_role(namespace).metadata.namespace == Some(namespace),
        spec_service_account(namespace).metadata.name == Some(CN@),
        spec_service_account(namespace).metadata.namespace == Some(namespace),
        spec_role_binding(namespace).metadata.name == Some(CN@),
        spec_role_binding(namespace).metadata.namespace == Some(namespace),
        spec_namespace(namespace).metadata.name == Some(namespace),
        spec_namespace(namespace).metadata.namespace is None,
        spec_namespace(namespace).metadata.labels is None,
{
}

} // verus!
