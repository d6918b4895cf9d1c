//! The deploy session: one strictly sequential pipeline per connection.
//!
//! The daemon consumes one framed deploy request, then runs fetch,
//! version-and-extract, configure, pre-hook, build, launch, dependency
//! provisioning, state persistence, health scheduling and post-hook, and
//! answers with one framed response.  A failure in a fetch, save, config,
//! build or launch stage is fatal: the session aborts with a distinct
//! error message.  A failure in a hook, in provisioning, in persisting the
//! record or in the health probe is best-effort: it is logged by the shell
//! and the pipeline continues.  This module decides the pipeline; the
//! shell performs each stage's I/O and reports back its outcome.

use crate::manifest::SparkFile;
use crate::store::AppState;
use crate::strutil::{concat_str, str_eq};
use vstd::prelude::*;
use vstd::string::StringExecFns;

verus! {

broadcast use vstd::string::group_string_axioms;

/// One deploy request as it travels on the wire: the repository to deploy,
/// the forge to fetch it from (or the `github` sentinel), optional
/// credentials, and whether to synthesize a missing health check.
#[derive(Clone, Debug, PartialEq)]
pub struct DeployMessage {
    pub repo: String,
    pub forge: String,
    pub auth_user: Option<String>,
    pub auth_password: Option<String>,
    pub auto_health: bool,
}

/// The archive download URL for a repository: the GitHub tarball API for
/// branch `main` under the `github` sentinel, and `{forge}/{repo}/archive`
/// for any other forge.
pub fn build_download_url(repo: &str, forge: &str) -> (r: String)
    ensures
        forge@ == "github"@ ==> r@ == "https://api.github.com/repos/"@ + repo@ + "/tarball/main"@,
        forge@ != "github"@ ==> r@ == forge@ + "/"@ + repo@ + "/archive"@,
{
    if str_eq(forge, "github") {
        let mut out = String::from_str("https://api.github.com/repos/");
        out.append(repo);
        out.append("/tarball/main");
        out
    } else {
        let mut out = String::from_str(forge);
        out.append("/");
        out.append(repo);
        out.append("/archive");
        out
    }
}

/// How the archive download authenticates.
pub enum AuthMethod {
    /// GitHub personal access token, sent as a bearer token.
    Bearer(String),
    /// HTTP Basic credentials for a custom forge.
    Basic(String, String),
    /// No credentials were supplied.
    NoAuth,
}

/// Picks the authentication for a download: with a username and password
/// present, the `github` sentinel sends the password as a bearer token and
/// any other forge sends both as HTTP Basic; with either credential
/// missing the request goes out unauthenticated.
pub fn auth_method(msg: &DeployMessage) -> (r: AuthMethod)
    ensures
        match r {
            AuthMethod::Bearer(t) => msg.forge@ == "github"@ && msg.auth_user is Some && (
            msg.auth_password matches Some(p) && t == p),
            AuthMethod::Basic(u, p) => msg.forge@ != "github"@ && (msg.auth_user matches Some(u2)
                && u == u2) && (msg.auth_password matches Some(p2) && p == p2),
            AuthMethod::NoAuth => msg.auth_user is None || msg.auth_password is None,
        },
{
    match (&msg.auth_user, &msg.auth_password) {
        (Some(user), Some(pass)) => {
            if str_eq(msg.forge.as_str(), "github") {
                AuthMethod::Bearer(pass.clone())
            } else {
                AuthMethod::Basic(user.clone(), pass.clone())
            }
        },
        _ => AuthMethod::NoAuth,
    }
}

/// The applications root: an explicit override wins, else `.spark/apps`
/// under the home directory, with `/tmp` standing in for a missing home.
pub fn resolve_apps_root(apps_dir_override: Option<String>, home: Option<String>) -> (r: String)
    ensures
        apps_dir_override matches Some(d) ==> r == d,
        apps_dir_override is None && (home matches Some(h)) ==> r@ == home->Some_0@
            + "/.spark/apps"@,
        apps_dir_override is None && home is None ==> r@ == "/tmp/.spark/apps"@,
{
    match apps_dir_override {
        Some(d) => d,
        None => match home {
            Some(h) => {
                let mut out = h;
                out.append("/.spark/apps");
                out
            },
            None => {
                proof {
                    reveal_strlit("/tmp");
                    reveal_strlit("/.spark/apps");
                    reveal_strlit("/tmp/.spark/apps");
                    assert("/tmp"@ + "/.spark/apps"@ =~= "/tmp/.spark/apps"@);
                }
                concat_str("/tmp", "/.spark/apps")
            },
        },
    }
}

/// The first decision of a session, taken on the outcome of decoding the
/// framed request.
pub enum ReceiveOutcome {
    /// The request was decoded: run the pipeline for it, starting at this
    /// stage.
    Begin(DeployMessage, DeployStage),
    /// The request was malformed or truncated: drop the connection without
    /// a response — before a request is read there is nothing to answer.
    AbortSilently,
}

/// Decides how a session begins: a decoded request starts the pipeline at
/// its fetch stage; a request that could not be decoded aborts the session
/// with no response sent.
pub fn on_request_decoded(decoded: Option<DeployMessage>) -> (r: ReceiveOutcome)
    ensures
        match r {
            ReceiveOutcome::Begin(m, s) => (decoded matches Some(d) && m == d) && s
                == DeployStage::Fetch,
            ReceiveOutcome::AbortSilently => decoded is None,
        },
{
    match decoded {
        Some(m) => ReceiveOutcome::Begin(m, DeployStage::Fetch),
        None => ReceiveOutcome::AbortSilently,
    }
}

/// The pipeline stages that run after the request is decoded, in order.
#[derive(Clone, Copy, PartialEq, Eq, Structural, Debug)]
pub enum DeployStage {
    /// Download the archive from the forge.
    Fetch,
    /// Archive the previous tree, write and extract the new one, swap the
    /// `current` pointer.
    SaveExtract,
    /// Parse the manifest from the extracted tree.
    LoadConfig,
    /// Best-effort pre-deploy hook.
    PreHook,
    /// Run the declared build command, if any.
    Build,
    /// Register the web route or spawn the run command.
    Launch,
    /// Best-effort database provisioning.
    Provision,
    /// Best-effort persistence of the application state record.
    Persist,
    /// Best-effort scheduling of the one-shot health probe.
    Monitor,
    /// Best-effort post-deploy hook.
    PostHook,
}

/// A stage whose failure aborts the session.  Fetch, save, config, build
/// and launch failures are fatal; hooks, provisioning, persistence and the
/// health probe degrade gracefully.
pub open spec fn spec_stage_fatal(s: DeployStage) -> bool {
    match s {
        DeployStage::Fetch => true,
        DeployStage::SaveExtract => true,
        DeployStage::LoadConfig => true,
        DeployStage::PreHook => false,
        DeployStage::Build => true,
        DeployStage::Launch => true,
        DeployStage::Provision => false,
        DeployStage::Persist => false,
        DeployStage::Monitor => false,
        DeployStage::PostHook => false,
    }
}

/// The stage that follows `s` when the session goes on, or `None` after
/// the last one.
pub open spec fn spec_next_stage(s: DeployStage) -> Option<DeployStage> {
    match s {
        DeployStage::Fetch => Some(DeployStage::SaveExtract),
        DeployStage::SaveExtract => Some(DeployStage::LoadConfig),
        DeployStage::LoadConfig => Some(DeployStage::PreHook),
        DeployStage::PreHook => Some(DeployStage::Build),
        DeployStage::Build => Some(DeployStage::Launch),
        DeployStage::Launch => Some(DeployStage::Provision),
        DeployStage::Provision => Some(DeployStage::Persist),
        DeployStage::Persist => Some(DeployStage::Monitor),
        DeployStage::Monitor => Some(DeployStage::PostHook),
        DeployStage::PostHook => None,
    }
}

/// The error text a fatal failure of `s` sends back to the client.
pub open spec fn spec_stage_error(s: DeployStage) -> Seq<char> {
    match s {
        DeployStage::Fetch => "Download failed"@,
        DeployStage::SaveExtract => "Save failed"@,
        DeployStage::LoadConfig => "Config load failed"@,
        DeployStage::Build => "Build failed"@,
        DeployStage::Launch => "Start failed"@,
        _ => ""@,
    }
}

/// What the session does after a stage reports its outcome.
pub enum StepDirective {
    /// Run this stage next.
    Continue(DeployStage),
    /// Send this framed error to the client and end the session.
    Abort(String),
    /// All stages ran: send the success response and end the session.
    Finish,
}

/// Advances the pipeline by one stage outcome.  Success moves to the next
/// stage, or finishes after the last.  Failure aborts with the stage's
/// error message when the stage is fatal, and is otherwise ignored: the
/// pipeline continues exactly as on success.
pub fn advance_session(stage: DeployStage, succeeded: bool) -> (r: StepDirective)
    ensures
        match r {
            StepDirective::Continue(next) => (succeeded || !spec_stage_fatal(stage))
                && spec_next_stage(stage) == Some(next),
            StepDirective::Abort(msg) => !succeeded && spec_stage_fatal(stage) && msg@
                == spec_stage_error(stage),
            StepDirective::Finish => (succeeded || !spec_stage_fatal(stage)) && spec_next_stage(
                stage,
            ) is None,
        },
{
    if !succeeded && stage_fatal(stage) {
        return StepDirective::Abort(stage_error(stage));
    }
    match stage {
        DeployStage::Fetch => StepDirective::Continue(DeployStage::SaveExtract),
        DeployStage::SaveExtract => StepDirective::Continue(DeployStage::LoadConfig),
        DeployStage::LoadConfig => StepDirective::Continue(DeployStage::PreHook),
        DeployStage::PreHook => StepDirective::Continue(DeployStage::Build),
        DeployStage::Build => StepDirective::Continue(DeployStage::Launch),
        DeployStage::Launch => StepDirective::Continue(DeployStage::Provision),
        DeployStage::Provision => StepDirective::Continue(DeployStage::Persist),
        DeployStage::Persist => StepDirective::Continue(DeployStage::Monitor),
        DeployStage::Monitor => StepDirective::Continue(DeployStage::PostHook),
        DeployStage::PostHook => StepDirective::Finish,
    }
}

/// Whether a failure of `stage` aborts the session.
pub fn stage_fatal(stage: DeployStage) -> (r: bool)
    ensures
        r == spec_stage_fatal(stage),
{
    match stage {
        DeployStage::Fetch => true,
        DeployStage::SaveExtract => true,
        DeployStage::LoadConfig => true,
        DeployStage::PreHook => false,
        DeployStage::Build => true,
        DeployStage::Launch => true,
        DeployStage::Provision => false,
        DeployStage::Persist => false,
        DeployStage::Monitor => false,
        DeployStage::PostHook => false,
    }
}

/// The error text for a fatal failure of `stage`.
fn stage_error(stage: DeployStage) -> (r: String)
    ensures
        r@ == spec_stage_error(stage),
{
    proof {
        reveal_strlit("");
        assert(""@ =~= Seq::<char>::empty());
    }
    match stage {
        DeployStage::Fetch => String::from_str("Download failed"),
        DeployStage::SaveExtract => String::from_str("Save failed"),
        DeployStage::LoadConfig => String::from_str("Config load failed"),
        DeployStage::Build => String::from_str("Build failed"),
        DeployStage::Launch => String::from_str("Start failed"),
        _ => String::new(),
    }
}

/// The response one session ends with: a success naming the application
/// directory, or an error message.  The client treats it as a tagged
/// result; the wire carries its rendering.
pub enum DeployResponse {
    Success(String),
    Failure(String),
}

/// Renders the session response for the wire: `Deployed to {dir}` on
/// success, and the error text behind a cross-mark error marker on failure.
pub fn render_response(r: &DeployResponse) -> (out: String)
    ensures
        match r {
            DeployResponse::Success(dir) => out@ == "Deployed to "@ + dir@,
            DeployResponse::Failure(msg) => out@ == "\u{274c} Error: "@ + msg@,
        },
{
    match r {
        DeployResponse::Success(dir) => concat_str("Deployed to ", dir.as_str()),
        DeployResponse::Failure(msg) => concat_str("\u{274c} Error: ", msg.as_str()),
    }
}

/// The state record a successful deploy persists: the manifest identity,
/// status `running`, the spawned process id (none for a web application),
/// the declared run port, the health URL if one is configured or was
/// synthesized, and the isolation mode.
pub fn make_app_state(m: &SparkFile, pid: Option<u32>) -> (s: AppState)
    ensures
        s.name == m.app.name,
        s.version == m.app.version,
        s.status@ == "running"@,
        s.pid == pid,
        s.port == (if m.run is Some {
            m.run->Some_0.port
        } else {
            None
        }),
        s.health_url == (if m.health is Some {
            Some(m.health->Some_0.url)
        } else {
            None
        }),
        s.isolation == (if m.isolation is Some {
            Some(m.isolation->Some_0.kind)
        } else {
            None
        }),
{
    AppState {
        name: m.app.name.clone(),
        version: m.app.version.clone(),
        status: String::from_str("running"),
        pid,
        port: match &m.run {
            Some(r) => r.port,
            None => None,
        },
        health_url: match &m.health {
            Some(h) => Some(h.url.clone()),
            None => None,
        },
        isolation: match &m.isolation {
            Some(i) => Some(i.kind.clone()),
            None => None,
        },
    }
}

/// The one-shot health probe a session schedules when a health URL is
/// configured: probe the URL after a fixed 5 second delay with a 10 second
/// request timeout.  A recurring supervisor is out of scope by design.
#[derive(Clone, Debug, PartialEq)]
pub struct ProbePlan {
    pub url: String,
    pub delay_secs: u64,
    pub timeout_secs: u64,
}

/// Decides the health probe for a configured application: one probe of the
/// health URL, 5 seconds after launch, bounded to 10 seconds; none when no
/// health section is present.
pub fn health_probe_plan(m: &SparkFile) -> (r: Option<ProbePlan>)
    ensures
        match r {
            Some(p) => (m.health matches Some(h) && p.url == h.url) && p.delay_secs == 5
                && p.timeout_secs == 10,
            None => m.health is None,
        },
{
    match &m.health {
        Some(h) => Some(ProbePlan { url: h.url.clone(), delay_secs: 5, timeout_secs: 10 }),
        None => None,
    }
}

/// Whether an HTTP status code counts as a passed health probe: any
/// success-class status.
pub fn probe_passed(status: u16) -> (r: bool)
    ensures
        r == (200 <= status < 300),
{
    200 <= status && status < 300
}

} // verus!
