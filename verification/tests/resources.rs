use namespace_watchdog::args::{cli_args, deployment_for, deployed_watch_args, watcher_cli_args, WatchArgs};
use namespace_watchdog::install::{apply_target, deploy_manifests, owner_manifests, unnamed_resource_message, Manifest};
use namespace_watchdog::objects::{Deployment, ObjectMeta};
use namespace_watchdog::resources::{
    deployment, metadata, namespace, role, role_binding, service_account, CN, IMAGE_VERSION,
};
use namespace_watchdog::time::Span;
use namespace_watchdog::ss;

fn pairs(v: &Option<Vec<(String, String)>>) -> Vec<(&str, &str)> {
    v.as_ref().unwrap().iter().map(|(k, v)| (k.as_str(), v.as_str())).collect()
}

fn container_args(d: &Deployment) -> Vec<String> {
    d.spec.as_ref().unwrap().template.spec.as_ref().unwrap().containers[0].args.clone().unwrap()
}

#[test]
fn ss_wraps_owned_text() {
    assert_eq!(ss("abc"), Some("abc".to_string()));
    assert_eq!(ss(""), Some(String::new()));
}

#[test]
fn default_gives_default_values() {
    let n: u32 = namespace_watchdog::default();
    assert_eq!(n, 0);
    let m: ObjectMeta = namespace_watchdog::default();
    assert!(m.name.is_none() && m.namespace.is_none() && m.labels.is_none());
}

#[test]
fn metadata_names_the_watchdog_in_the_namespace() {
    let m = metadata("team-a");
    assert_eq!(m.name.as_deref(), Some("namespace-watchdog"));
    assert_eq!(m.namespace.as_deref(), Some("team-a"));
    assert!(m.labels.is_none());
}

#[test]
fn role_may_only_delete_namespaces() {
    let r = role("team-a");
    assert_eq!(r.metadata.name.as_deref(), Some(CN));
    let rules = r.rules.unwrap();
    assert_eq!(rules.len(), 1);
    assert_eq!(rules[0].api_groups, Some(vec!["".to_string()]));
    assert_eq!(rules[0].resources, Some(vec!["namespaces".to_string()]));
    assert_eq!(rules[0].verbs, vec!["delete".to_string()]);
}

#[test]
fn role_binding_binds_role_to_service_account() {
    let b = role_binding("team-a");
    assert_eq!(b.metadata.namespace.as_deref(), Some("team-a"));
    assert_eq!(b.role_ref.api_group, "rbac.authorization.k8s.io");
    assert_eq!(b.role_ref.kind, "Role");
    assert_eq!(b.role_ref.name, "namespace-watchdog");
    let subjects = b.subjects.unwrap();
    assert_eq!(subjects.len(), 1);
    assert_eq!(subjects[0].kind, "ServiceAccount");
    assert_eq!(subjects[0].name, service_account("team-a").metadata.name.unwrap());
    assert_eq!(subjects[0].namespace.as_deref(), Some("team-a"));
}

#[test]
fn namespace_object_has_only_a_name() {
    let n = namespace("team-a");
    assert_eq!(n.metadata.name.as_deref(), Some("team-a"));
    assert!(n.metadata.namespace.is_none());
}

#[test]
fn owner_deployment_runs_fixed_arguments() {
    let d = deployment("team-a");
    assert_eq!(d.metadata.name.as_deref(), Some(CN));
    let spec = d.spec.as_ref().unwrap();
    assert_eq!(spec.replicas, Some(1));
    assert_eq!(spec.strategy.as_ref().unwrap().type_.as_deref(), Some("Recreate"));
    assert_eq!(pairs(&spec.selector.match_labels), vec![("name", "namespace-watchdog")]);
    assert_eq!(pairs(&spec.template.metadata.as_ref().unwrap().labels), vec![("name", "namespace-watchdog")]);
    let pod = spec.template.spec.as_ref().unwrap();
    assert_eq!(pod.service_account_name.as_deref(), Some("namespace-watchdog"));
    let c = &pod.containers[0];
    assert_eq!(c.name, "main");
    assert_eq!(container_args(&d), vec!["--initial-timeout=60 seconds", "--listen=0.0.0.0:8080"]);
    assert_eq!(c.image.clone().unwrap(), format!("liftm/kubernetes-namespace-watchdog:{}", IMAGE_VERSION));
    assert_eq!(c.image_pull_policy.as_deref(), Some("IfNotPresent"));
    let res = c.resources.as_ref().unwrap();
    assert_eq!(pairs(&res.limits), vec![("cpu", "5m"), ("memory", "10M")]);
    assert_eq!(pairs(&res.requests), vec![("cpu", "5m"), ("memory", "10M")]);
}

fn args(initial: u64, max: Option<u64>, sigusr1: Option<u64>, listen: Option<&str>) -> WatchArgs {
    WatchArgs {
        initial_timeout: Span::from_secs(initial),
        max_timeout: max.map(Span::from_secs),
        sigusr1_timeout: sigusr1.map(Span::from_secs),
        listen: listen.map(|l| l.to_string()),
    }
}

#[test]
fn watcher_args_format_timeouts_with_humantime() {
    assert_eq!(watcher_cli_args(&args(60, None, None, None)), vec!["--initial-timeout=1m"]);
    assert_eq!(
        watcher_cli_args(&args(90, Some(3600), Some(5), Some("0.0.0.0:8080"))),
        vec!["--initial-timeout=1m 30s", "--max-timeout=1h", "--sigusr1-timeout=5s", "--listen=0.0.0.0:8080"]
    );
    assert_eq!(watcher_cli_args(&args(0, None, Some(86400), None)), vec!["--initial-timeout=0s", "--sigusr1-timeout=1day"]);
    let half = WatchArgs { initial_timeout: Span::new(1, 500_000_000), max_timeout: None, sigusr1_timeout: None, listen: None };
    assert_eq!(watcher_cli_args(&half), vec!["--initial-timeout=1s 500ms"]);
}

#[test]
fn cli_args_keep_order_and_skip_missing() {
    assert_eq!(
        cli_args("1m".into(), None, Some("2m".into()), Some("[::1]:80".into())),
        vec!["--initial-timeout=1m", "--sigusr1-timeout=2m", "--listen=[::1]:80"]
    );
    assert_eq!(cli_args("x".into(), Some("y".into()), None, None), vec!["--initial-timeout=x", "--max-timeout=y"]);
}

#[test]
fn deployed_args_listen_on_the_forwarded_port() {
    let d = deployed_watch_args(args(120, Some(600), None, None));
    assert_eq!(d.listen.as_deref(), Some("0.0.0.0:8080"));
    assert_eq!(d.initial_timeout, Span::from_secs(120));
    assert_eq!(d.max_timeout, Some(Span::from_secs(600)));
    assert_eq!(d.sigusr1_timeout, None);
}

#[test]
fn deployment_for_hands_settings_to_the_watchdog() {
    let a = deployed_watch_args(args(120, Some(600), None, None));
    let d = deployment_for("team-b", &a);
    assert_eq!(container_args(&d), vec!["--initial-timeout=2m", "--max-timeout=10m", "--listen=0.0.0.0:8080"]);
    let c = &d.spec.as_ref().unwrap().template.spec.as_ref().unwrap().containers[0];
    assert_eq!(c.image.as_deref(), Some("liftm/kubernetes-namespace-watchdog"));
    assert_eq!(c.image_pull_policy.as_deref(), Some("Always"));
    assert_eq!(d.metadata.namespace.as_deref(), Some("team-b"));
}

fn kinds(v: &[Manifest]) -> Vec<String> {
    v.iter().map(|m| m.kind()).collect()
}

#[test]
fn manifests_are_applied_in_order() {
    let v = owner_manifests("team-a");
    assert_eq!(kinds(&v), vec!["ServiceAccount", "Role", "RoleBinding", "Deployment"]);
    for m in &v {
        assert_eq!(m.metadata().name.as_deref(), Some(CN));
        assert_eq!(m.metadata().namespace.as_deref(), Some("team-a"));
    }
    let w = deploy_manifests("team-c", &args(60, None, None, None));
    assert_eq!(kinds(&w), vec!["ServiceAccount", "Role", "RoleBinding", "Deployment"]);
    match &w[3] {
        Manifest::Deployment(d) => assert_eq!(container_args(d), vec!["--initial-timeout=1m"]),
        _ => panic!("the deployment comes last"),
    }
}

#[test]
fn apply_target_names_kind_and_name() {
    let v = owner_manifests("team-a");
    let t = apply_target(&v[1]);
    assert_eq!(t.kind, "Role");
    assert_eq!(t.name, "namespace-watchdog");
    assert_eq!(t.id, "Role/namespace-watchdog");
    assert_eq!(t.failure_context, "Failed to apply resource Role/namespace-watchdog");
    assert_eq!(apply_target(&v[3]).id, "Deployment/namespace-watchdog");
    assert_eq!(apply_target(&v[0]).id, "ServiceAccount/namespace-watchdog");
    assert_eq!(apply_target(&v[2]).id, "RoleBinding/namespace-watchdog");
}

#[test]
fn unnamed_resource_message_names_kind() {
    assert_eq!(unnamed_resource_message("Role"), "All resource hava a name, Role does not");
}
