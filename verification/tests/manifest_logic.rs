use spark_deploy::manifest::{
    apply_auto_health, build_plan, health_url_for_port, launch_plan, post_deploy_plan,
    pre_deploy_plan, AppSection, BuildSection, HealthSection, HooksSection, IsolationSection,
    LaunchPlan, RunSection, SparkFile, WebSection,
};

fn bare_manifest() -> SparkFile {
    SparkFile {
        app: AppSection { name: "demo".to_string(), version: "1.0".to_string() },
        build: None,
        run: None,
        env: None,
        web: None,
        health: None,
        isolation: None,
        storage: None,
        database: None,
        notify: None,
        secrets: None,
        resource_limits: None,
        hooks: None,
        metrics: None,
        strategy: None,
        auto_health: None,
    }
}

#[test]
fn health_url_renders_port() {
    assert_eq!(health_url_for_port(8080), "http://localhost:8080");
    assert_eq!(health_url_for_port(80), "http://localhost:80");
    assert_eq!(health_url_for_port(65535), "http://localhost:65535");
}

#[test]
fn auto_health_synthesized_from_run_port() {
    let mut m = bare_manifest();
    m.run = Some(RunSection { command: "./serve".to_string(), port: Some(8080) });
    apply_auto_health(&mut m, true);
    let h = m.health.expect("health section must be synthesized");
    assert_eq!(h.url, "http://localhost:8080");
    assert_eq!(h.timeout, Some(30));
}

#[test]
fn auto_health_honors_manifest_flag() {
    let mut m = bare_manifest();
    m.run = Some(RunSection { command: "./serve".to_string(), port: Some(3000) });
    m.auto_health = Some(true);
    apply_auto_health(&mut m, false);
    assert_eq!(m.health.unwrap().url, "http://localhost:3000");
}

#[test]
fn auto_health_needs_a_port() {
    let mut m = bare_manifest();
    m.run = Some(RunSection { command: "./serve".to_string(), port: None });
    apply_auto_health(&mut m, true);
    assert!(m.health.is_none());
}

#[test]
fn auto_health_never_overwrites() {
    let mut m = bare_manifest();
    m.run = Some(RunSection { command: "./serve".to_string(), port: Some(8080) });
    m.health = Some(HealthSection { url: "http://example.com/hc".to_string(), timeout: None });
    apply_auto_health(&mut m, true);
    assert_eq!(m.health.unwrap().url, "http://example.com/hc");
}

#[test]
fn auto_health_off_by_default() {
    let mut m = bare_manifest();
    m.run = Some(RunSection { command: "./serve".to_string(), port: Some(8080) });
    apply_auto_health(&mut m, false);
    assert!(m.health.is_none());
}

#[test]
fn web_section_wins_launch() {
    let mut m = bare_manifest();
    m.web = Some(WebSection { domain: "mysite.local".to_string(), root: Some("dist".to_string()) });
    m.run = Some(RunSection { command: "./serve".to_string(), port: Some(8080) });
    match launch_plan(&m, "/apps/demo") {
        LaunchPlan::Web { domain, root_path } => {
            assert_eq!(domain, "mysite.local");
            assert_eq!(root_path, "/apps/demo/dist");
        }
        _ => panic!("web must win over run"),
    }
}

#[test]
fn web_root_defaults_to_dot() {
    let mut m = bare_manifest();
    m.web = Some(WebSection { domain: "mysite.local".to_string(), root: None });
    match launch_plan(&m, "/apps/demo") {
        LaunchPlan::Web { root_path, .. } => assert_eq!(root_path, "/apps/demo/."),
        _ => panic!("expected a web launch"),
    }
}

#[test]
fn run_section_spawns_plain_shell() {
    let mut m = bare_manifest();
    m.run = Some(RunSection { command: "./serve --port 8080".to_string(), port: Some(8080) });
    match launch_plan(&m, "/apps/demo") {
        LaunchPlan::Run { command } => {
            assert_eq!(command.program, "sh");
            assert_eq!(command.args, vec!["-c".to_string(), "./serve --port 8080".to_string()]);
            assert_eq!(command.cwd, Some("/apps/demo".to_string()));
        }
        _ => panic!("expected a run launch"),
    }
}

#[test]
fn systemd_isolation_wraps_run() {
    let mut m = bare_manifest();
    m.run = Some(RunSection { command: "./serve".to_string(), port: None });
    m.isolation = Some(IsolationSection { kind: "systemd".to_string() });
    match launch_plan(&m, "/apps/demo") {
        LaunchPlan::Run { command } => {
            assert_eq!(command.program, "systemd-run");
            assert_eq!(
                command.args,
                vec![
                    "--user".to_string(),
                    "--scope".to_string(),
                    "sh".to_string(),
                    "-c".to_string(),
                    "./serve".to_string(),
                ]
            );
            assert_eq!(command.cwd, Some("/apps/demo".to_string()));
        }
        _ => panic!("expected a run launch"),
    }
}

#[test]
fn chroot_isolation_wraps_run() {
    let mut m = bare_manifest();
    m.run = Some(RunSection { command: "./serve".to_string(), port: None });
    m.isolation = Some(IsolationSection { kind: "chroot".to_string() });
    match launch_plan(&m, "/apps/demo") {
        LaunchPlan::Run { command } => {
            assert_eq!(command.program, "chroot");
            assert_eq!(
                command.args,
                vec![
                    "/apps/demo".to_string(),
                    "sh".to_string(),
                    "-c".to_string(),
                    "./serve".to_string(),
                ]
            );
            assert_eq!(command.cwd, None);
        }
        _ => panic!("expected a run launch"),
    }
}

#[test]
fn unknown_isolation_runs_plain() {
    let mut m = bare_manifest();
    m.run = Some(RunSection { command: "./serve".to_string(), port: None });
    m.isolation = Some(IsolationSection { kind: "none".to_string() });
    match launch_plan(&m, "/apps/demo") {
        LaunchPlan::Run { command } => assert_eq!(command.program, "sh"),
        _ => panic!("expected a run launch"),
    }
}

#[test]
fn neither_section_launches_nothing() {
    let m = bare_manifest();
    assert!(matches!(launch_plan(&m, "/apps/demo"), LaunchPlan::NoLaunch));
}

#[test]
fn build_plan_follows_manifest() {
    let mut m = bare_manifest();
    assert!(build_plan(&m, "/apps/demo").is_none());
    m.build = Some(BuildSection { command: "make all".to_string() });
    let p = build_plan(&m, "/apps/demo").unwrap();
    assert_eq!(p.program, "sh");
    assert_eq!(p.args, vec!["-c".to_string(), "make all".to_string()]);
    assert_eq!(p.cwd, Some("/apps/demo".to_string()));
}

#[test]
fn hook_plans_follow_manifest() {
    let mut m = bare_manifest();
    assert!(pre_deploy_plan(&m, "/apps/demo").is_none());
    assert!(post_deploy_plan(&m, "/apps/demo").is_none());
    m.hooks = Some(HooksSection {
        pre_deploy: Some("echo before".to_string()),
        post_deploy: None,
    });
    let pre = pre_deploy_plan(&m, "/apps/demo").unwrap();
    assert_eq!(pre.args, vec!["-c".to_string(), "echo before".to_string()]);
    assert!(post_deploy_plan(&m, "/apps/demo").is_none());
}
