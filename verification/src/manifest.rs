//! The per-application manifest and the decisions driven by it.
//!
//! A deployed tree carries a manifest describing how to build, run, publish
//! and provision the application.  The manifest itself is a passive record
//! read from disk by the unverified shell; this module holds the decisions
//! the engine takes over it: which launch mode applies (publishing a web
//! root takes precedence over running a command; neither means the app is
//! provisioned but not started), how the run command is wrapped per
//! isolation mode, and when a missing health section is synthesized from
//! the declared run port.

use crate::strutil::{concat_str, spec_dec_digits, str_eq, u64_to_string};
use vstd::prelude::*;
use vstd::string::StringExecFns;

verus! {

broadcast use vstd::string::group_string_axioms;

/// The mandatory application identity.
#[derive(Clone, Debug, PartialEq)]
pub struct AppSection {
    pub name: String,
    pub version: String,
}

/// An optional build command, run in the application directory before launch.
#[derive(Clone, Debug, PartialEq)]
pub struct BuildSection {
    pub command: String,
}

/// An optional run command with the port it listens on.
#[derive(Clone, Debug, PartialEq)]
pub struct RunSection {
    pub command: String,
    pub port: Option<u16>,
}

/// An optional web publication: a domain served from a document root.
#[derive(Clone, Debug, PartialEq)]
pub struct WebSection {
    pub domain: String,
    pub root: Option<String>,
}

/// An optional health check: a URL probed with a bounded timeout.
#[derive(Clone, Debug, PartialEq)]
pub struct HealthSection {
    pub url: String,
    pub timeout: Option<u64>,
}

/// The process-confinement strategy for the run command.
#[derive(Clone, Debug, PartialEq)]
pub struct IsolationSection {
    pub kind: String,
}

/// An optional storage declaration, carried through but not acted on here.
#[derive(Clone, Debug, PartialEq)]
pub struct StorageSection {
    pub kind: String,
    pub bucket: Option<String>,
    pub endpoint: Option<String>,
    pub access_key: Option<String>,
    pub secret_key: Option<String>,
    pub size: Option<String>,
    pub mount: Option<String>,
    pub public: Option<bool>,
}

/// An optional database to provision alongside the application.
#[derive(Clone, Debug, PartialEq)]
pub struct DatabaseSection {
    pub kind: String,
    pub name: Option<String>,
    pub user: Option<String>,
    pub password: Option<String>,
    pub port: Option<u16>,
    pub preseed: Option<String>,
}

/// Optional notification hooks on success and failure.
#[derive(Clone, Debug, PartialEq)]
pub struct NotifySection {
    pub on_success: Option<Vec<String>>,
    pub on_fail: Option<Vec<String>>,
}

/// An optional map of secret names to values.
#[derive(Clone, Debug, PartialEq)]
pub struct SecretsSection {
    pub secrets: Vec<(String, String)>,
}

/// Optional resource limits, carried through but not acted on here.
#[derive(Clone, Debug, PartialEq)]
pub struct ResourceLimitsSection {
    pub memory: Option<String>,
    pub cpu: Option<String>,
    pub timeout: Option<String>,
}

/// Optional pre- and post-deploy shell hooks.
#[derive(Clone, Debug, PartialEq)]
pub struct HooksSection {
    pub pre_deploy: Option<String>,
    pub post_deploy: Option<String>,
}

/// An optional metrics sink.
#[derive(Clone, Debug, PartialEq)]
pub struct MetricsSection {
    pub pushgateway: Option<String>,
    pub collect: Option<Vec<String>>,
}

/// An optional rollout strategy.
#[derive(Clone, Debug, PartialEq)]
pub struct StrategySection {
    pub kind: String,
    pub percent: Option<u8>,
    pub wait_time: Option<String>,
}

/// The manifest at the root of a deployed tree: the application identity
/// and an open set of optional sections.
#[derive(Clone, Debug, PartialEq)]
pub struct SparkFile {
    pub app: AppSection,
    pub build: Option<BuildSection>,
    pub run: Option<RunSection>,
    pub env: Option<Vec<(String, String)>>,
    pub web: Option<WebSection>,
    pub health: Option<HealthSection>,
    pub isolation: Option<IsolationSection>,
    pub storage: Option<StorageSection>,
    pub database: Option<DatabaseSection>,
    pub notify: Option<NotifySection>,
    pub secrets: Option<SecretsSection>,
    pub resource_limits: Option<ResourceLimitsSection>,
    pub hooks: Option<HooksSection>,
    pub metrics: Option<MetricsSection>,
    pub strategy: Option<StrategySection>,
    pub auto_health: Option<bool>,
}

/// The synthesized health URL for a run port: `http://localhost:{port}`.
pub open spec fn spec_health_url(port: u16) -> Seq<char> {
    "http://localhost:"@ + spec_dec_digits(port as nat)
}

/// Renders the synthesized health URL for a run port.
pub fn health_url_for_port(port: u16) -> (r: String)
    ensures
        r@ == spec_health_url(port),
{
    let mut out = String::from_str("http://localhost:");
    let digits = u64_to_string(port as u64);
    out.append(digits.as_str());
    out
}

/// Auto-health synthesis applies when the manifest has no health section,
/// either the deploy request or the manifest asks for it, and a run port is
/// declared to point the probe at.
pub open spec fn spec_wants_auto_health(m: SparkFile, request_auto_health: bool) -> bool {
    &&& m.health is None
    &&& (request_auto_health || m.auto_health == Some(true))
    &&& (m.run matches Some(r) && r.port is Some)
}

/// Synthesizes a missing health section when the request or the manifest
/// asks for one and a run port is declared: the probe points at
/// `http://localhost:{port}` with a 30 second timeout.  In every other case
/// the manifest is left as it was.  No field but `health` ever changes.
pub fn apply_auto_health(m: &mut SparkFile, request_auto_health: bool)
    ensures
        spec_wants_auto_health(*old(m), request_auto_health) ==> (final(m).health matches Some(h)
            && h.url@ == spec_health_url(old(m).run->Some_0.port->Some_0) && h.timeout == Some(
            30u64,
        )),
        !spec_wants_auto_health(*old(m), request_auto_health) ==> final(m).health == old(m).health,
        final(m).app == old(m).app,
        final(m).build == old(m).build,
        final(m).run == old(m).run,
        final(m).env == old(m).env,
        final(m).web == old(m).web,
        final(m).isolation == old(m).isolation,
        final(m).storage == old(m).storage,
        final(m).database == old(m).database,
        final(m).notify == old(m).notify,
        final(m).secrets == old(m).secrets,
        final(m).resource_limits == old(m).resource_limits,
        final(m).hooks == old(m).hooks,
        final(m).metrics == old(m).metrics,
        final(m).strategy == old(m).strategy,
        final(m).auto_health == old(m).auto_health,
{
    let wants = auto_health_requested(m, request_auto_health);
    if m.health.is_none() && wants {
        let port = match &m.run {
            Some(r) => r.port,
            None => None,
        };
        if let Some(p) = port {
            m.health = Some(
                HealthSection { url: health_url_for_port(p), timeout: Some(30u64) },
            );
        }
    }
}

/// Whether the request flag or the manifest's own flag asks for auto-health.
fn auto_health_requested(m: &SparkFile, request_auto_health: bool) -> (r: bool)
    ensures
        r == (request_auto_health || m.auto_health == Some(true)),
{
    request_auto_health || match m.auto_health {
        Some(b) => b,
        None => false,
    }
}

/// One subprocess to run: a program, its arguments, and the directory to
/// run it in.
#[derive(Clone, Debug, PartialEq)]
pub struct CommandPlan {
    pub program: String,
    pub args: Vec<String>,
    pub cwd: Option<String>,
}

/// The views of a sequence of strings.
pub open spec fn spec_strings(v: Seq<String>) -> Seq<Seq<char>> {
    v.map_values(|s: String| s@)
}

/// How the application is launched, decided by the manifest: a web
/// publication registers a gateway route and spawns nothing; a run section
/// spawns its command, wrapped per isolation mode; with neither section the
/// application is provisioned but not started.
pub enum LaunchPlan {
    /// Register `domain -> root_path` with the gateway; no process.
    Web { domain: String, root_path: String },
    /// Spawn this command in the background and record its process id.
    Run { command: CommandPlan },
    /// Neither web nor run: nothing to launch.
    NoLaunch,
}

/// The document root served for a web section: the application directory
/// joined with the declared root, or with `.` when none is declared.
pub open spec fn spec_web_root(app_dir: Seq<char>, root: Option<String>) -> Seq<char> {
    app_dir + "/"@ + (match root {
        Some(r) => r@,
        None => "."@,
    })
}

/// The wrapped run invocation for a run command under an isolation mode.
pub open spec fn spec_run_invocation(
    command: Seq<char>,
    isolation: Option<IsolationSection>,
    app_dir: Seq<char>,
    p: CommandPlan,
) -> bool {
    if (isolation matches Some(i) && i.kind@ == "systemd"@) {
        &&& p.program@ == "systemd-run"@
        &&& spec_strings(p.args@) == seq!["--user"@, "--scope"@, "sh"@, "-c"@, command]
        &&& (p.cwd matches Some(d) && d@ == app_dir)
    } else if (isolation matches Some(i) && i.kind@ == "chroot"@) {
        &&& p.program@ == "chroot"@
        &&& spec_strings(p.args@) == seq![app_dir, "sh"@, "-c"@, command]
        &&& p.cwd is None
    } else {
        &&& p.program@ == "sh"@
        &&& spec_strings(p.args@) == seq!["-c"@, command]
        &&& (p.cwd matches Some(d) && d@ == app_dir)
    }
}

/// Decides the launch mode for a configured application.  A web section
/// wins over a run section; the run command is wrapped per the declared
/// isolation mode; with neither section nothing is launched.
pub fn launch_plan(m: &SparkFile, app_dir: &str) -> (r: LaunchPlan)
    ensures
        match r {
            LaunchPlan::Web { domain, root_path } => {
                &&& m.web matches Some(w)
                &&& domain == w.domain
                &&& root_path@ == spec_web_root(app_dir@, w.root)
            },
            LaunchPlan::Run { command } => {
                &&& m.web is None
                &&& m.run matches Some(rs)
                &&& spec_run_invocation(rs.command@, m.isolation, app_dir@, command)
            },
            LaunchPlan::NoLaunch => m.web is None && m.run is None,
        },
{
    if let Some(web) = &m.web {
        let mut root_path = concat_str(app_dir, "/");
        match &web.root {
            Some(rt) => root_path.append(rt.as_str()),
            None => root_path.append("."),
        }
        LaunchPlan::Web { domain: web.domain.clone(), root_path }
    } else if let Some(run) = &m.run {
        let plan = run_invocation(run.command.clone(), &m.isolation, app_dir);
        LaunchPlan::Run { command: plan }
    } else {
        LaunchPlan::NoLaunch
    }
}

/// Wraps a run command per the isolation mode: a user-scoped transient unit
/// under `systemd`, a chrooted shell under `chroot`, and a plain shell in
/// the application directory otherwise.
fn run_invocation(command: String, isolation: &Option<IsolationSection>, app_dir: &str) -> (p:
    CommandPlan)
    ensures
        spec_run_invocation(command@, *isolation, app_dir@, p),
{
    let mode_systemd: bool = match isolation {
        Some(i) => str_eq(i.kind.as_str(), "systemd"),
        None => false,
    };
    let mode_chroot: bool = match isolation {
        Some(i) => str_eq(i.kind.as_str(), "chroot"),
        None => false,
    };
    if mode_systemd {
        let mut args: Vec<String> = Vec::new();
        args.push(String::from_str("--user"));
        args.push(String::from_str("--scope"));
        args.push(String::from_str("sh"));
        args.push(String::from_str("-c"));
        args.push(command);
        let p = CommandPlan {
            program: String::from_str("systemd-run"),
            args,
            cwd: Some(String::from_str(app_dir)),
        };
        proof {
            assert(spec_strings(p.args@) =~= seq![
                "--user"@,
                "--scope"@,
                "sh"@,
                "-c"@,
                p.args@[4]@,
            ]);
        }
        p
    } else if mode_chroot {
        let mut args: Vec<String> = Vec::new();
        args.push(String::from_str(app_dir));
        args.push(String::from_str("sh"));
        args.push(String::from_str("-c"));
        args.push(command);
        let p = CommandPlan { program: String::from_str("chroot"), args, cwd: None };
        proof {
            assert(spec_strings(p.args@) =~= seq![app_dir@, "sh"@, "-c"@, p.args@[3]@]);
        }
        p
    } else {
        let mut args: Vec<String> = Vec::new();
        args.push(String::from_str("-c"));
        args.push(command);
        let p = CommandPlan {
            program: String::from_str("sh"),
            args,
            cwd: Some(String::from_str(app_dir)),
        };
        proof {
            assert(spec_strings(p.args@) =~= seq!["-c"@, p.args@[1]@]);
        }
        p
    }
}

/// The build step, when the manifest declares one: the build command run
/// synchronously in the application directory.
pub fn build_plan(m: &SparkFile, app_dir: &str) -> (r: Option<CommandPlan>)
    ensures
        match r {
            Some(p) => {
                &&& m.build matches Some(b)
                &&& p.program@ == "sh"@
                &&& spec_strings(p.args@) == seq!["-c"@, b.command@]
                &&& (p.cwd matches Some(d) && d@ == app_dir@)
            },
            None => m.build is None,
        },
{
    match &m.build {
        Some(b) => Some(shell_in_dir(b.command.clone(), app_dir)),
        None => None,
    }
}

/// The pre-deploy hook, when the manifest declares one: a best-effort shell
/// command in the application directory.
pub fn pre_deploy_plan(m: &SparkFile, app_dir: &str) -> (r: Option<CommandPlan>)
    ensures
        match r {
            Some(p) => {
                &&& m.hooks matches Some(h)
                &&& h.pre_deploy matches Some(cmd)
                &&& p.program@ == "sh"@
                &&& spec_strings(p.args@) == seq!["-c"@, cmd@]
                &&& (p.cwd matches Some(d) && d@ == app_dir@)
            },
            None => m.hooks is None || m.hooks->Some_0.pre_deploy is None,
        },
{
    match &m.hooks {
        Some(h) => match &h.pre_deploy {
            Some(cmd) => Some(shell_in_dir(cmd.clone(), app_dir)),
            None => None,
        },
        None => None,
    }
}

/// The post-deploy hook, when the manifest declares one: a best-effort
/// shell command in the application directory.
pub fn post_deploy_plan(m: &SparkFile, app_dir: &str) -> (r: Option<CommandPlan>)
    ensures
        match r {
            Some(p) => {
                &&& m.hooks matches Some(h)
                &&& h.post_deploy matches Some(cmd)
                &&& p.program@ == "sh"@
                &&& spec_strings(p.args@) == seq!["-c"@, cmd@]
                &&& (p.cwd matches Some(d) && d@ == app_dir@)
            },
            None => m.hooks is None || m.hooks->Some_0.post_deploy is None,
        },
{
    match &m.hooks {
        Some(h) => match &h.post_deploy {
            Some(cmd) => Some(shell_in_dir(cmd.clone(), app_dir)),
            None => None,
        },
        None => None,
    }
}

/// `sh -c {command}` run in `dir`.
fn shell_in_dir(command: String, dir: &str) -> (p: CommandPlan)
    ensures
        p.program@ == "sh"@,
        spec_strings(p.args@) == seq!["-c"@, command@],
        p.cwd matches Some(d) && d@ == dir@,
{
    let mut args: Vec<String> = Vec::new();
    args.push(String::from_str("-c"));
    args.push(command);
    let p = CommandPlan {
        program: String::from_str("sh"),
        args,
        cwd: Some(String::from_str(dir)),
    };
    proof {
        assert(spec_strings(p.args@) =~= seq!["-c"@, p.args@[1]@]);
    }
    p
}

} // verus!
