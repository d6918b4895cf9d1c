use spark_deploy::manifest::{
    apply_auto_health, AppSection, HealthSection, IsolationSection, RunSection, SparkFile,
    WebSection,
};
use spark_deploy::session::{
    advance_session, auth_method, build_download_url, health_probe_plan, make_app_state,
    on_request_decoded, probe_passed, render_response, resolve_apps_root, AuthMethod,
    DeployMessage, DeployResponse, DeployStage, ReceiveOutcome, StepDirective,
};

fn manifest_with(run: Option<RunSection>, web: Option<WebSection>) -> SparkFile {
    SparkFile {
        app: AppSection { name: "demo".to_string(), version: "2.1".to_string() },
        build: None,
        run,
        env: None,
        web,
        health: None,
        isolation: None,
        storage: None,
        database: None,
        notify: None,
        secrets: None,
        resource_limits: None,
        hooks: None,
        metrics: None,
        strategy: None,
        auto_health: None,
    }
}

#[test]
fn github_sentinel_uses_tarball_api() {
    assert_eq!(
        build_download_url("acme/site", "github"),
        "https://api.github.com/repos/acme/site/tarball/main"
    );
}

#[test]
fn custom_forge_uses_archive_path() {
    assert_eq!(
        build_download_url("acme/site", "http://forge.local"),
        "http://forge.local/acme/site/archive"
    );
}

fn message(forge: &str, user: Option<&str>, pass: Option<&str>) -> DeployMessage {
    DeployMessage {
        repo: "acme/site".to_string(),
        forge: forge.to_string(),
        auth_user: user.map(|s| s.to_string()),
        auth_password: pass.map(|s| s.to_string()),
        auto_health: false,
    }
}

#[test]
fn github_credentials_become_bearer() {
    match auth_method(&message("github", Some("u"), Some("token123"))) {
        AuthMethod::Bearer(t) => assert_eq!(t, "token123"),
        _ => panic!("github must use the bearer token"),
    }
}

#[test]
fn forge_credentials_become_basic() {
    match auth_method(&message("http://forge.local", Some("u"), Some("p"))) {
        AuthMethod::Basic(u, p) => {
            assert_eq!(u, "u");
            assert_eq!(p, "p");
        }
        _ => panic!("a custom forge must use basic auth"),
    }
}

#[test]
fn missing_credentials_send_nothing() {
    assert!(matches!(auth_method(&message("github", None, Some("p"))), AuthMethod::NoAuth));
    assert!(matches!(auth_method(&message("f", Some("u"), None)), AuthMethod::NoAuth));
    assert!(matches!(auth_method(&message("f", None, None)), AuthMethod::NoAuth));
}

#[test]
fn apps_root_resolution_order() {
    assert_eq!(
        resolve_apps_root(Some("/opt/apps".to_string()), Some("/home/u".to_string())),
        "/opt/apps"
    );
    assert_eq!(resolve_apps_root(None, Some("/home/u".to_string())), "/home/u/.spark/apps");
    assert_eq!(resolve_apps_root(None, None), "/tmp/.spark/apps");
}

#[test]
fn fatal_stage_failures_abort_with_their_message() {
    let cases = [
        (DeployStage::Fetch, "Download failed"),
        (DeployStage::SaveExtract, "Save failed"),
        (DeployStage::LoadConfig, "Config load failed"),
        (DeployStage::Build, "Build failed"),
        (DeployStage::Launch, "Start failed"),
    ];
    for (stage, msg) in cases {
        match advance_session(stage, false) {
            StepDirective::Abort(m) => assert_eq!(m, msg),
            _ => panic!("a fatal stage failure must abort"),
        }
    }
}

#[test]
fn best_effort_failures_continue() {
    assert!(matches!(
        advance_session(DeployStage::PreHook, false),
        StepDirective::Continue(DeployStage::Build)
    ));
    assert!(matches!(
        advance_session(DeployStage::Provision, false),
        StepDirective::Continue(DeployStage::Persist)
    ));
    assert!(matches!(
        advance_session(DeployStage::Persist, false),
        StepDirective::Continue(DeployStage::Monitor)
    ));
    assert!(matches!(
        advance_session(DeployStage::Monitor, false),
        StepDirective::Continue(DeployStage::PostHook)
    ));
    assert!(matches!(advance_session(DeployStage::PostHook, false), StepDirective::Finish));
}

#[test]
fn success_walks_the_whole_pipeline() {
    let mut stage = DeployStage::Fetch;
    let mut steps = 0;
    loop {
        match advance_session(stage, true) {
            StepDirective::Continue(next) => {
                stage = next;
                steps += 1;
                assert!(steps < 20, "the pipeline must terminate");
            }
            StepDirective::Finish => break,
            StepDirective::Abort(_) => panic!("success must never abort"),
        }
    }
    assert_eq!(steps, 9);
}

#[test]
fn responses_render_for_the_wire() {
    assert_eq!(
        render_response(&DeployResponse::Success("/apps/demo".to_string())),
        "Deployed to /apps/demo"
    );
    assert_eq!(
        render_response(&DeployResponse::Failure("Download failed".to_string())),
        "\u{274c} Error: Download failed"
    );
}

#[test]
fn app_state_records_the_deploy() {
    let mut m = manifest_with(
        Some(RunSection { command: "./serve".to_string(), port: Some(8080) }),
        None,
    );
    m.isolation = Some(IsolationSection { kind: "systemd".to_string() });
    m.health = Some(HealthSection { url: "http://localhost:8080".to_string(), timeout: Some(30) });
    let s = make_app_state(&m, Some(1234));
    assert_eq!(s.name, "demo");
    assert_eq!(s.version, "2.1");
    assert_eq!(s.status, "running");
    assert_eq!(s.pid, Some(1234));
    assert_eq!(s.port, Some(8080));
    assert_eq!(s.health_url.as_deref(), Some("http://localhost:8080"));
    assert_eq!(s.isolation.as_deref(), Some("systemd"));
}

#[test]
fn web_deploy_records_no_pid() {
    let m = manifest_with(
        None,
        Some(WebSection { domain: "mysite.local".to_string(), root: Some("dist".to_string()) }),
    );
    let s = make_app_state(&m, None);
    assert_eq!(s.status, "running");
    assert_eq!(s.pid, None);
    assert_eq!(s.port, None);
}

#[test]
fn synthesized_health_reaches_app_state() {
    let mut m = manifest_with(
        Some(RunSection { command: "./serve".to_string(), port: Some(8080) }),
        None,
    );
    apply_auto_health(&mut m, true);
    let s = make_app_state(&m, Some(1));
    assert_eq!(s.health_url.as_deref(), Some("http://localhost:8080"));
}

#[test]
fn probe_plan_follows_health_section() {
    let mut m = manifest_with(None, None);
    assert!(health_probe_plan(&m).is_none());
    m.health = Some(HealthSection { url: "http://localhost:9/hc".to_string(), timeout: Some(30) });
    let p = health_probe_plan(&m).unwrap();
    assert_eq!(p.url, "http://localhost:9/hc");
    assert_eq!(p.delay_secs, 5);
    assert_eq!(p.timeout_secs, 10);
}

#[test]
fn probe_passes_on_success_statuses() {
    assert!(probe_passed(200));
    assert!(probe_passed(204));
    assert!(probe_passed(299));
    assert!(!probe_passed(199));
    assert!(!probe_passed(300));
    assert!(!probe_passed(404));
    assert!(!probe_passed(500));
}

#[test]
fn decoded_request_starts_at_fetch() {
    let msg = message("github", None, None);
    match on_request_decoded(Some(msg)) {
        ReceiveOutcome::Begin(m, stage) => {
            assert_eq!(m.repo, "acme/site");
            assert!(matches!(stage, DeployStage::Fetch));
        }
        ReceiveOutcome::AbortSilently => panic!("a decoded request must start the pipeline"),
    }
}

#[test]
fn malformed_request_aborts_without_response() {
    assert!(matches!(on_request_decoded(None), ReceiveOutcome::AbortSilently));
}
