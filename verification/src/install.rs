//! The objects that install the watchdog, in the order in which they are applied, and what
//! applying one of them names.
use crate::args::{deployment_for, spec_deployment_for, WatchArgs};
use crate::kinds::{deployment_kind, role_binding_kind, role_kind, service_account_kind};
use crate::objects::{
    Deployment, DeploymentView, ObjectMeta, ObjectMetaView, Role, RoleBinding, RoleBindingView,
    RoleView, ServiceAccount, ServiceAccountView,
};
use crate::resources::{
    deployment, role, role_binding, service_account, spec_deployment, spec_metadata,
    spec_role, spec_role_binding, spec_service_account,
};
use vstd::prelude::*;
use vstd::string::StringExecFns;

verus! {

/// An object that is applied to install the watchdog.
pub enum Manifest {
    ServiceAccount(ServiceAccount),
    Role(Role),
    RoleBinding(RoleBinding),
    Deployment(Deployment),
}

pub enum ManifestView {
    ServiceAccount(ServiceAccountView),
    Role(RoleView),
    RoleBinding(RoleBindingView),
    Deployment(DeploymentView),
}

impl View for Manifest {
    type V = ManifestView;

    open spec fn view(&self) -> ManifestView {
        match self {
            Manifest::ServiceAccount(o) => ManifestView::ServiceAccount(o@),
            Manifest::Role(o) => ManifestView::Role(o@),
            Manifest::RoleBinding(o) => ManifestView::RoleBinding(o@),
            Manifest::Deployment(o) => ManifestView::Deployment(o@),
        }
    }
}

impl ManifestView {
    pub open spec fn metadata(self) -> ObjectMetaView {
        match self {
            ManifestView::ServiceAccount(o) => o.metadata,
            ManifestView::Role(o) => o.metadata,
            ManifestView::RoleBinding(o) => o.metadata,
            ManifestView::Deployment(o) => o.metadata,
        }
    }

    pub open spec fn kind(self) -> Seq<char> {
        match self {
            ManifestView::ServiceAccount(_) => "ServiceAccount"@,
            ManifestView::Role(_) => "Role"@,
            ManifestView::RoleBinding(_) => "RoleBinding"@,
            ManifestView::Deployment(_) => "Deployment"@,
        }
    }
}

impl Manifest {
    /// The object's metadata.
    pub fn metadata(&self) -> (m: &ObjectMeta)
        ensures
            m@ == self@.metadata(),
    {
        match self {
            Manifest::ServiceAccount(o) => &o.metadata,
            Manifest::Role(o) => &o.metadata,
            Manifest::RoleBinding(o) => &o.metadata,
            Manifest::Deployment(o) => &o.metadata,
        }
    }

    /// The object's kind, as kube reports it.
    pub fn kind(&self) -> (k: String)
        ensures
            k@ == self@.kind(),
    {
        match self {
            Manifest::ServiceAccount(_) => service_account_kind(),
            Manifest::Role(_) => role_kind(),
            Manifest::RoleBinding(_) => role_binding_kind(),
            Manifest::Deployment(_) => deployment_kind(),
        }
    }
}

/// The objects that install the watchdog, in the order of their application: the service
/// account, the role, the binding, and the given deployment.
pub open spec fn spec_install(namespace: Seq<char>, deployment: DeploymentView) -> Seq<
    ManifestView,
> {
    seq![
        ManifestView::ServiceAccount(spec_service_account(namespace)),
        ManifestView::Role(spec_role(namespace)),
        ManifestView::RoleBinding(spec_role_binding(namespace)),
        ManifestView::Deployment(deployment),
    ]
}

pub open spec fn manifests_view(v: Vec<Manifest>) -> Seq<ManifestView> {
    v@.map_values(|m: Manifest| m@)
}

fn install_with(namespace: &str, d: Deployment) -> (v: Vec<Manifest>)
    ensures
        manifests_view(v) == spec_install(namespace@, d@),
{
    let v = vec![
        Manifest::ServiceAccount(service_account(namespace)),
        Manifest::Role(role(namespace)),
        Manifest::RoleBinding(role_binding(namespace)),
        Manifest::Deployment(d),
    ];
    assert(manifests_view(v) =~= spec_install(namespace@, d@));
    v
}

/// What the installing process applies to `namespace` before it keeps the watchdog alive.
pub fn owner_manifests(namespace: &str) -> (v: Vec<Manifest>)
    ensures
        manifests_view(v) == spec_install(namespace@, spec_deployment(namespace@)),
        manifests_view(v).len() == 4,
        manifests_view(v)[0] == ManifestView::ServiceAccount(spec_service_account(namespace@)),
        manifests_view(v)[1] == ManifestView::Role(spec_role(namespace@)),
        manifests_view(v)[2] == ManifestView::RoleBinding(spec_role_binding(namespace@)),
        manifests_view(v)[3] == ManifestView::Deployment(spec_deployment(namespace@)),
{
    install_with(namespace, deployment(namespace))
}

/// What the deploying command applies to `namespace` for a watchdog with settings `args`.
pub fn deploy_manifests(namespace: &str, args: &WatchArgs) -> (v: Vec<Manifest>)
    ensures
        manifests_view(v) == spec_install(namespace@, spec_deployment_for(namespace@, *args)),
        manifests_view(v).len() == 4,
        manifests_view(v)[0] == ManifestView::ServiceAccount(spec_service_account(namespace@)),
        manifests_view(v)[1] == ManifestView::Role(spec_role(namespace@)),
        manifests_view(v)[2] == ManifestView::RoleBinding(spec_role_binding(namespace@)),
        manifests_view(v)[3] == ManifestView::Deployment(spec_deployment_for(namespace@, *args)),
{
    install_with(namespace, deployment_for(namespace, args))
}

/// What applying an object names: its kind, its name, their joint identifier, and the
/// context of a failure to apply it.
pub struct ApplyTarget {
    pub kind: String,
    pub name: String,
    pub id: String,
    pub failure_context: String,
}

/// The identifier `kind/name` of an object.
pub open spec fn spec_resource_id(kind: Seq<char>, name: Seq<char>) -> Seq<char> {
    kind + "/"@ + name
}

/// What applying `m` names. Every object has a name there.
pub fn apply_target(m: &Manifest) -> (t: ApplyTarget)
    requires
        m@.metadata().name is Some,
    ensures
        t.kind@ == m@.kind(),
        t.name@ == m@.metadata().name->0,
        t.id@ == spec_resource_id(m@.kind(), m@.metadata().name->0),
        t.failure_context@ == "Failed to apply resource "@ + t.id@,
{
    let kind = m.kind();
    let name = m.metadata().name_unchecked();
    let id = kind.clone().concat("/").concat(name.as_str());
    let failure_context = "Failed to apply resource ".to_owned().concat(id.as_str());
    ApplyTarget { kind, name, id, failure_context }
}

/// The complaint about an object of kind `kind` without a name.
pub fn unnamed_resource_message(kind: &str) -> (s: String)
    ensures
        s@ == "All resource hava a name, "@ + kind@ + " does not"@,
{
    "All resource hava a name, ".to_owned().concat(kind).concat(" does not")
}

/// Every object that installs the watchdog is named after it and lies in the watched
/// namespace, with either deployment; so each can be applied.
pub proof fn lemma_installed_objects_named(namespace: Seq<char>, args: WatchArgs)
    ensures
        forall|i: int|
            0 <= i < 4 ==> #[trigger] spec_install(namespace, spec_deployment(namespace))[i].metadata()
                == spec_metadata(namespace),
        forall|i: int|
            0 <= i < 4 ==> #[trigger] spec_install(
                namespace,
                spec_deployment_for(namespace, args),
            )[i].metadata() == spec_metadata(namespace),
        spec_install(namespace, spec_deployment(namespace)).len() == 4,
        spec_install(namespace, spec_deployment_for(namespace, args)).len() == 4,
{
}

/// The objects are applied in the order service account, role, binding, deployment, each the
/// one that its builder gives: in particular the role applied second is the watchdog role,
/// which may delete namespaces.
pub proof fn lemma_install_applies_builders_in_order(namespace: Seq<char>, d: DeploymentView)
    ensures
        ({
            let v = spec_install(namespace, d);
            &&& v.len() == 4
            &&& v[0] == ManifestView::ServiceAccount(spec_service_account(namespace))
            &&& v[1] == ManifestView::Role(spec_role(namespace))
            &&& v[2] == ManifestView::RoleBinding(spec_role_binding(namespace))
            &&& v[3] == ManifestView::Deployment(d)
            &&& v[0].kind() == "ServiceAccount"@
            &&& v[1].kind() == "Role"@
            &&& v[2].kind() == "RoleBinding"@
            &&& v[3].kind() == "Deployment"@
            &&& v[1] matches ManifestView::Role(r) && r.rules == Some(
                seq![
                    crate::objects::PolicyRuleView {
                        api_groups: Some(seq![""@]),
                        resources: Some(seq!["namespaces"@]),
                        verbs: seq!["delete"@],
                    },
                ],
            )
        }),
{
}

} // verus!
