//! The Kubernetes objects that the watchdog installs, holding the fields that it sets.
//! Each has a view over `Seq<char>` texts, in which the contracts are written.
use vstd::prelude::*;

verus! {

/// The view of an optional text.
pub open spec fn opt_text(o: Option<String>) -> Option<Seq<char>> {
    match o {
        Some(s) => Some(s@),
        None => None,
    }
}

/// The view of a list of texts.
pub open spec fn texts(v: Vec<String>) -> Seq<Seq<char>> {
    v@.map_values(|s: String| s@)
}

/// The view of an optional list of texts.
pub open spec fn opt_texts(o: Option<Vec<String>>) -> Option<Seq<Seq<char>>> {
    match o {
        Some(v) => Some(texts(v)),
        None => None,
    }
}

/// The view of an ordered text map, held as its entries in key order.
pub open spec fn entries(v: Vec<(String, String)>) -> Seq<(Seq<char>, Seq<char>)> {
    v@.map_values(|e: (String, String)| (e.0@, e.1@))
}

/// The view of an optional ordered text map.
pub open spec fn opt_entries(o: Option<Vec<(String, String)>>) -> Option<
    Seq<(Seq<char>, Seq<char>)>,
> {
    match o {
        Some(v) => Some(entries(v)),
        None => None,
    }
}

/// Metadata of an object: its name, its namespace and its labels.
pub struct ObjectMeta {
    pub name: Option<String>,
    pub namespace: Option<String>,
    pub labels: Option<Vec<(String, String)>>,
}

pub struct ObjectMetaView {
    pub name: Option<Seq<char>>,
    pub namespace: Option<Seq<char>>,
    pub labels: Option<Seq<(Seq<char>, Seq<char>)>>,
}

impl ObjectMetaView {
    pub open spec fn empty() -> ObjectMetaView {
        ObjectMetaView { name: None, namespace: None, labels: None }
    }
}

impl View for ObjectMeta {
    type V = ObjectMetaView;

    open spec fn view(&self) -> ObjectMetaView {
        ObjectMetaView {
            name: opt_text(self.name),
            namespace: opt_text(self.namespace),
            labels: opt_entries(self.labels),
        }
    }
}

impl Default for ObjectMeta {
    fn default() -> (m: ObjectMeta)
        ensures
            m@ == ObjectMetaView::empty(),
    {
        ObjectMeta { name: None, namespace: None, labels: None }
    }
}

impl ObjectMeta {
    /// The name, which must be set.
    pub fn name_unchecked(&self) -> (n: String)
        requires
            self.name is Some,
        ensures
            n@ == self@.name->0,
    {
        match &self.name {
            Some(n) => n.clone(),
            None => String::new(),
        }
    }
}

/// A rule of a role: which verbs it allows on which resources of which API groups.
pub struct PolicyRule {
    pub api_groups: Option<Vec<String>>,
    pub resources: Option<Vec<String>>,
    pub verbs: Vec<String>,
}

pub struct PolicyRuleView {
    pub api_groups: Option<Seq<Seq<char>>>,
    pub resources: Option<Seq<Seq<char>>>,
    pub verbs: Seq<Seq<char>>,
}

impl View for PolicyRule {
    type V = PolicyRuleView;

    open spec fn view(&self) -> PolicyRuleView {
        PolicyRuleView {
            api_groups: opt_texts(self.api_groups),
            resources: opt_texts(self.resources),
            verbs: texts(self.verbs),
        }
    }
}

/// A namespaced role.
pub struct Role {
    pub metadata: ObjectMeta,
    pub rules: Option<Vec<PolicyRule>>,
}

pub struct RoleView {
    pub metadata: ObjectMetaView,
    pub rules: Option<Seq<PolicyRuleView>>,
}

impl View for Role {
    type V = RoleView;

    open spec fn view(&self) -> RoleView {
        RoleView {
            metadata: self.metadata@,
            rules: match self.rules {
                Some(v) => Some(v@.map_values(|r: PolicyRule| r@)),
                None => None,
            },
        }
    }
}

/// The role that a binding grants.
pub struct RoleRef {
    pub api_group: String,
    pub kind: String,
    pub name: String,
}

pub struct RoleRefView {
    pub api_group: Seq<char>,
    pub kind: Seq<char>,
    pub name: Seq<char>,
}

impl View for RoleRef {
    type V = RoleRefView;

    open spec fn view(&self) -> RoleRefView {
        RoleRefView { api_group: self.api_group@, kind: self.kind@, name: self.name@ }
    }
}

/// Who a binding grants its role to.
pub struct Subject {
    pub kind: String,
    pub name: String,
    pub namespace: Option<String>,
}

pub struct SubjectView {
    pub kind: Seq<char>,
    pub name: Seq<char>,
    pub namespace: Option<Seq<char>>,
}

impl View for Subject {
    type V = SubjectView;

    open spec fn view(&self) -> SubjectView {
        SubjectView { kind: self.kind@, name: self.name@, namespace: opt_text(self.namespace) }
    }
}

/// A binding of a role to subjects.
pub struct RoleBinding {
    pub metadata: ObjectMeta,
    pub role_ref: RoleRef,
    pub subjects: Option<Vec<Subject>>,
}

pub struct RoleBindingView {
    pub metadata: ObjectMetaView,
    pub role_ref: RoleRefView,
    pub subjects: Option<Seq<SubjectView>>,
}

impl View for RoleBinding {
    type V = RoleBindingView;

    open spec fn view(&self) -> RoleBindingView {
        RoleBindingView {
            metadata: self.metadata@,
            role_ref: self.role_ref@,
            subjects: match self.subjects {
                Some(v) => Some(v@.map_values(|s: Subject| s@)),
                None => None,
            },
        }
    }
}

/// A service account.
pub struct ServiceAccount {
    pub metadata: ObjectMeta,
}

pub struct ServiceAccountView {
    pub metadata: ObjectMetaView,
}

impl View for ServiceAccount {
    type V = ServiceAccountView;

    open spec fn view(&self) -> ServiceAccountView {
        ServiceAccountView { metadata: self.metadata@ }
    }
}

/// A namespace.
pub struct Namespace {
    pub metadata: ObjectMeta,
}

pub struct NamespaceView {
    pub metadata: ObjectMetaView,
}

impl View for Namespace {
    type V = NamespaceView;

    open spec fn view(&self) -> NamespaceView {
        NamespaceView { metadata: self.metadata@ }
    }
}

/// Resource limits and requests of a container, each a map from resource name to quantity.
pub struct ResourceRequirements {
    pub limits: Option<Vec<(String, String)>>,
    pub requests: Option<Vec<(String, String)>>,
}

pub struct ResourceRequirementsView {
    pub limits: Option<Seq<(Seq<char>, Seq<char>)>>,
    pub requests: Option<Seq<(Seq<char>, Seq<char>)>>,
}

impl View for ResourceRequirements {
    type V = ResourceRequirementsView;

    open spec fn view(&self) -> ResourceRequirementsView {
        ResourceRequirementsView {
            limits: opt_entries(self.limits),
            requests: opt_entries(self.requests),
        }
    }
}

/// A container of a pod.
pub struct Container {
    pub name: String,
    pub args: Option<Vec<String>>,
    pub image: Option<String>,
    pub image_pull_policy: Option<String>,
    pub resources: Option<ResourceRequirements>,
}

pub struct ContainerView {
    pub name: Seq<char>,
    pub args: Option<Seq<Seq<char>>>,
    pub image: Option<Seq<char>>,
    pub image_pull_policy: Option<Seq<char>>,
    pub resources: Option<ResourceRequirementsView>,
}

impl View for Container {
    type V = ContainerView;

    open spec fn view(&self) -> ContainerView {
        ContainerView {
            name: self.name@,
            args: opt_texts(self.args),
            image: opt_text(self.image),
            image_pull_policy: opt_text(self.image_pull_policy),
            resources: match self.resources {
                Some(r) => Some(r@),
                None => None,
            },
        }
    }
}

/// The specification of a pod.
pub struct PodSpec {
    pub service_account_name: Option<String>,
    pub containers: Vec<Container>,
}

pub struct PodSpecView {
    pub service_account_name: Option<Seq<char>>,
    pub containers: Seq<ContainerView>,
}

impl View for PodSpec {
    type V = PodSpecView;

    open spec fn view(&self) -> PodSpecView {
        PodSpecView {
            service_account_name: opt_text(self.service_account_name),
            containers: self.containers@.map_values(|c: Container| c@),
        }
    }
}

/// The template of the pods that a deployment runs.
pub struct PodTemplateSpec {
    pub metadata: Option<ObjectMeta>,
    pub spec: Option<PodSpec>,
}

pub struct PodTemplateSpecView {
    pub metadata: Option<ObjectMetaView>,
    pub spec: Option<PodSpecView>,
}

impl View for PodTemplateSpec {
    type V = PodTemplateSpecView;

    open spec fn view(&self) -> PodTemplateSpecView {
        PodTemplateSpecView {
            metadata: match self.metadata {
                Some(m) => Some(m@),
                None => None,
            },
            spec: match self.spec {
                Some(s) => Some(s@),
                None => None,
            },
        }
    }
}

/// A selector of objects by their labels.
pub struct LabelSelector {
    pub match_labels: Option<Vec<(String, String)>>,
}

pub struct LabelSelectorView {
    pub match_labels: Option<Seq<(Seq<char>, Seq<char>)>>,
}

impl View for LabelSelector {
    type V = LabelSelectorView;

    open spec fn view(&self) -> LabelSelectorView {
        LabelSelectorView { match_labels: opt_entries(self.match_labels) }
    }
}

/// How a deployment replaces its pods.
pub struct DeploymentStrategy {
    pub type_: Option<String>,
}

pub struct DeploymentStrategyView {
    pub type_: Option<Seq<char>>,
}

impl View for DeploymentStrategy {
    type V = DeploymentStrategyView;

    open spec fn view(&self) -> DeploymentStrategyView {
        DeploymentStrategyView { type_: opt_text(self.type_) }
    }
}

/// The specification of a deployment.
pub struct DeploymentSpec {
    pub replicas: Option<i32>,
    pub strategy: Option<DeploymentStrategy>,
    pub selector: LabelSelector,
    pub template: PodTemplateSpec,
}

pub struct DeploymentSpecView {
    pub replicas: Option<i32>,
    pub strategy: Option<DeploymentStrategyView>,
    pub selector: LabelSelectorView,
    pub template: PodTemplateSpecView,
}

impl View for DeploymentSpec {
    type V = DeploymentSpecView;

    open spec fn view(&self) -> DeploymentSpecView {
        DeploymentSpecView {
            replicas: self.replicas,
            strategy: match self.strategy {
                Some(s) => Some(s@),
                None => None,
            },
            selector: self.selector@,
            template: self.template@,
        }
    }
}

/// A deployment.
pub struct Deployment {
    pub metadata: ObjectMeta,
    pub spec: Option<DeploymentSpec>,
}

pub struct DeploymentView {
    pub metadata: ObjectMetaView,
    pub spec: Option<DeploymentSpecView>,
}

impl View for Deployment {
    type V = DeploymentView;

    open spec fn view(&self) -> DeploymentView {
        DeploymentView {
            metadata: self.metadata@,
            spec: match self.spec {
                Some(s) => Some(s@),
                None => None,
            },
        }
    }
}

} // verus!
