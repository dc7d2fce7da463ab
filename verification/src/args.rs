//! The watchdog's settings, and the command line that hands them to a deployed watchdog.
use crate::objects::{opt_text, texts, Deployment};
use crate::resources::{deployment_of, spec_deployment_of, CN};
use crate::time::Span;
use vstd::prelude::*;
use vstd::string::StringExecFns;

verus! {

/// Address on which a deployed watchdog listens for keep-alive requests.
pub const WATCHDOG_LISTEN: &'static str = "0.0.0.0:8080";

/// Port on which a deployed watchdog listens, and to which the installing process forwards.
pub const WATCHDOG_PORT: u16 = 8080;

/// The watchdog's settings.
pub struct WatchArgs {
    /// Time from start until the namespace is deleted, unless the deadline is pushed back.
    pub initial_timeout: Span,
    /// Longest time by which a keep-alive request may push the deadline past the present.
    pub max_timeout: Option<Span>,
    /// Time by which SIGUSR1 pushes the deadline past the present.
    pub sigusr1_timeout: Option<Span>,
    /// Address (in its text form) of the HTTP API that pushes the deadline back.
    pub listen: Option<String>,
}

/// What humantime's `Duration` prints for a span of the given nanoseconds.
pub uninterp spec fn humantime_text(nanos: nat) -> Seq<char>;

/// Prints a span as humantime's `Duration` does (through `humantime::format_duration`).
/// The text is named by `humantime_text`; what it holds is not stated here.
#[verifier::external_body]
fn humantime_display(d: Span) -> (s: String)
    ensures
        s@ == humantime_text(d@),
{
    format!("{}", humantime::Duration::from(std::time::Duration::new(d.secs, d.nanos)))
}

/// An argument `flag` + value where there is a value, none otherwise.
pub open spec fn opt_arg(flag: Seq<char>, value: Option<Seq<char>>) -> Seq<Seq<char>> {
    match value {
        Some(v) => seq![flag + v],
        None => seq![],
    }
}

/// The command line of a watchdog, from the texts of its settings.
pub open spec fn spec_cli_args(
    initial: Seq<char>,
    max: Option<Seq<char>>,
    sigusr1: Option<Seq<char>>,
    listen: Option<Seq<char>>,
) -> Seq<Seq<char>> {
    seq!["--initial-timeout="@ + initial] + opt_arg("--max-timeout="@, max) + opt_arg(
        "--sigusr1-timeout="@,
        sigusr1,
    ) + opt_arg("--listen="@, listen)
}

/// The humantime text of an optional span.
pub open spec fn opt_humantime(d: Option<Span>) -> Option<Seq<char>> {
    match d {
        Some(d) => Some(humantime_text(d@)),
        None => None,
    }
}

/// The command line that hands `args` to a watchdog.
pub open spec fn spec_watcher_cli_args(args: WatchArgs) -> Seq<Seq<char>> {
    spec_cli_args(
        humantime_text(args.initial_timeout@),
        opt_humantime(args.max_timeout),
        opt_humantime(args.sigusr1_timeout),
        opt_text(args.listen),
    )
}

fn push_opt_arg(v: &mut Vec<String>, flag: &str, value: Option<String>)
    ensures
        texts(*final(v)) == texts(*old(v)) + opt_arg(flag@, opt_text(value)),
{
    let ghost before = texts(*v);
    match value {
        Some(t) => {
            v.push(flag.to_owned().concat(t.as_str()));
            assert(texts(*v) =~= before + opt_arg(flag@, opt_text(Some(t))));
        },
        None => {
            assert(texts(*v) =~= before + opt_arg(flag@, opt_text(value)));
        },
    }
}

/// The command line of a watchdog from the texts of its settings: the initial timeout,
/// then the maximum timeout, the SIGUSR1 timeout and the listen address where given.
pub fn cli_args(
    initial: String,
    max: Option<String>,
    sigusr1: Option<String>,
    listen: Option<String>,
) -> (v: Vec<String>)
    ensures
        texts(v) == spec_cli_args(initial@, opt_text(max), opt_text(sigusr1), opt_text(listen)),
{
    let mut v: Vec<String> = Vec::new();
    v.push("--initial-timeout=".to_owned().concat(initial.as_str()));
    assert(texts(v) =~= seq!["--initial-timeout="@ + initial@]);
    push_opt_arg(&mut v, "--max-timeout=", max);
    push_opt_arg(&mut v, "--sigusr1-timeout=", sigusr1);
    push_opt_arg(&mut v, "--listen=", listen);
    v
}

fn opt_humantime_display(d: Option<Span>) -> (s: Option<String>)
    ensures
        opt_text(s) == opt_humantime(d),
{
    match d {
        Some(d) => Some(humantime_display(d)),
        None => None,
    }
}

/// The command line that hands `args` to a watchdog.
pub fn watcher_cli_args(args: &WatchArgs) -> (v: Vec<String>)
    ensures
        texts(v) == spec_watcher_cli_args(*args),
        texts(v) == spec_cli_args(
            humantime_text(args.initial_timeout@),
            opt_humantime(args.max_timeout),
            opt_humantime(args.sigusr1_timeout),
            opt_text(args.listen),
        ),
{
    let listen = match &args.listen {
        Some(l) => Some(l.clone()),
        None => None,
    };
    cli_args(
        humantime_display(args.initial_timeout),
        opt_humantime_display(args.max_timeout),
        opt_humantime_display(args.sigusr1_timeout),
        listen,
    )
}

/// The settings of a deployed watchdog: those given, listening on `WATCHDOG_LISTEN`.
pub fn deployed_watch_args(args: WatchArgs) -> (d: WatchArgs)
    ensures
        d.initial_timeout == args.initial_timeout,
        d.max_timeout == args.max_timeout,
        d.sigusr1_timeout == args.sigusr1_timeout,
        opt_text(d.listen) == Some(WATCHDOG_LISTEN@),
{
    WatchArgs { listen: Some(WATCHDOG_LISTEN.to_owned()), ..args }
}

/// The deployment of a watchdog with the given settings, always pulling its image.
pub open spec fn spec_deployment_for(namespace: Seq<char>, args: WatchArgs) -> crate::objects::DeploymentView {
    spec_deployment_of(
        namespace,
        spec_watcher_cli_args(args),
        "liftm/kubernetes-"@ + CN@,
        "Always"@,
    )
}

/// The deployment of a watchdog with the given settings, always pulling its image.
pub fn deployment_for(namespace: &str, args: &WatchArgs) -> (d: Deployment)
    ensures
        d@ == spec_deployment_for(namespace@, *args),
        d@.metadata.namespace == Some(namespace@),
        d@.spec is Some,
        d@.spec->0.template.spec is Some,
        d@.spec->0.template.spec->0.containers.len() == 1,
        d@.spec->0.template.spec->0.containers[0].args == Some(
            spec_cli_args(
                humantime_text(args.initial_timeout@),
                opt_humantime(args.max_timeout),
                opt_humantime(args.sigusr1_timeout),
                opt_text(args.listen),
            ),
        ),
        d@.spec->0.template.spec->0.containers[0].image == Some("liftm/kubernetes-"@ + CN@),
        d@.spec->0.template.spec->0.containers[0].image_pull_policy == Some("Always"@),
{
    let image = "liftm/kubernetes-".to_owned().concat(CN);
    deployment_of(namespace, watcher_cli_args(args), image, "Always")
}

/// The count of given values among the optional settings.
pub open spec fn given(o: Option<Seq<char>>) -> int {
    if o is Some {
        1
    } else {
        0
    }
}

/// The command line carries every given setting, after the initial timeout, one argument
/// each, and nothing else.
pub proof fn lemma_cli_args_carry_each_setting(
    initial: Seq<char>,
    max: Option<Seq<char>>,
    sigusr1: Option<Seq<char>>,
    listen: Option<Seq<char>>,
)
    ensures
        ({
            let v = spec_cli_args(initial, max, sigusr1, listen);
            &&& v.len() == 1 + given(max) + given(sigusr1) + given(listen)
            &&& v[0] == "--initial-timeout="@ + initial
            &&& max matches Some(m) ==> v[1] == "--max-timeout="@ + m
            &&& sigusr1 matches Some(t) ==> v[1 + given(max)] == "--sigusr1-timeout="@ + t
            &&& listen matches Some(l) ==> v[1 + given(max) + given(sigusr1)] == "--listen="@ + l
            &&& max matches Some(m) ==> v.contains("--max-timeout="@ + m)
            &&& sigusr1 matches Some(t) ==> v.contains("--sigusr1-timeout="@ + t)
            &&& listen matches Some(l) ==> v.contains("--listen="@ + l)
        }),
{
    let v = spec_cli_args(initial, max, sigusr1, listen);
    let a = seq!["--initial-timeout="@ + initial];
    let b = opt_arg("--max-timeout="@, max);
    let c = opt_arg("--sigusr1-timeout="@, sigusr1);
    let d = opt_arg("--listen="@, listen);
    assert(v == a + b + c + d);
    if let Some(m) = max {
        assert(v[1] == "--max-timeout="@ + m);
    }
    if let Some(t) = sigusr1 {
        assert(v[1 + given(max)] == "--sigusr1-timeout="@ + t);
    }
    if let Some(l) = listen {
        assert(v[1 + given(max) + given(sigusr1)] == "--listen="@ + l);
    }
}

/// The deploy command's deployment runs one container whose command line carries exactly the
/// given settings: in particular a given SIGUSR1 timeout is passed on.
pub proof fn lemma_deployment_for_runs_the_settings(namespace: Seq<char>, args: WatchArgs)
    ensures
        ({
            let containers = spec_deployment_for(namespace, args).spec->0.template.spec->0.containers;
            let cli = spec_cli_args(
                humantime_text(args.initial_timeout@),
                opt_humantime(args.max_timeout),
                opt_humantime(args.sigusr1_timeout),
                opt_text(args.listen),
            );
            &&& containers.len() == 1
            &&& containers[0].args == Some(cli)
            &&& args.sigusr1_timeout matches Some(t) ==> cli.contains(
                "--sigusr1-timeout="@ + humantime_text(t@),
            )
            &&& args.max_timeout matches Some(m) ==> cli.contains(
                "--max-timeout="@ + humantime_text(m@),
            )
            &&& cli[0] == "--initial-timeout="@ + humantime_text(args.initial_timeout@)
        }),
{
    lemma_cli_args_carry_each_setting(
        humantime_text(args.initial_timeout@),
        opt_humantime(args.max_timeout),
        opt_humantime(args.sigusr1_timeout),
        opt_text(args.listen),
    );
}

} // verus!
