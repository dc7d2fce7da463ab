//! The kinds of the objects that the watchdog installs, as kube reports them.
use vstd::prelude::*;

verus! {

/// Calls `kube::Resource::kind` for k8s-openapi's `Role`, which returns the type's
/// `KIND`, "Role".
#[verifier::external_body]
pub(crate) fn role_kind() -> (k: String)
    ensures
        k@ == "Role"@,
{
    <k8s_openapi::api::rbac::v1::Role as kube::Resource>::kind(&()).into_owned()
}

/// Calls `kube::Resource::kind` for k8s-openapi's `RoleBinding`, which returns the type's
/// `KIND`, "RoleBinding".
#[verifier::external_body]
pub(crate) fn role_binding_kind() -> (k: String)
    ensures
        k@ == "RoleBinding"@,
{
    <k8s_openapi::api::rbac::v1::RoleBinding as kube::Resource>::kind(&()).into_owned()
}

/// Calls `kube::Resource::kind` for k8s-openapi's `ServiceAccount`, which returns the
/// type's `KIND`, "ServiceAccount".
#[verifier::external_body]
pub(crate) fn service_account_kind() -> (k: String)
    ensures
        k@ == "ServiceAccount"@,
{
    <k8s_openapi::api::core::v1::ServiceAccount as kube::Resource>::kind(&()).into_owned()
}

/// Calls `kube::Resource::kind` for k8s-openapi's `Deployment`, which returns the type's
/// `KIND`, "Deployment".
#[verifier::external_body]
pub(crate) fn deployment_kind() -> (k: String)
    ensures
        k@ == "Deployment"@,
{
    <k8s_openapi::api::apps::v1::Deployment as kube::Resource>::kind(&()).into_owned()
}

} // verus!
