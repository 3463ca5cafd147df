use pet_discovery::python_environment::{
    PythonEnvironment, PythonEnvironmentBuilder, PythonEnvironmentKind,
};
use pet_discovery::snapshot::FsSnapshot;
use pet_discovery::telemetry::report_inaccuracies_identified_after_resolving;

fn plain_snapshot() -> FsSnapshot {
    FsSnapshot { files: vec![], dirs: vec![], canon: vec![], case_insensitive: false }
}

fn make_env(
    executable: String,
    prefix: String,
    version: &str,
    symlinks: Vec<String>,
) -> PythonEnvironment {
    PythonEnvironmentBuilder::new(Some(PythonEnvironmentKind::Venv))
        .executable(Some(executable))
        .prefix(Some(prefix))
        .version(Some(version.to_string()))
        .symlinks(Some(symlinks))
        .build()
}

#[test]
fn same_prefix_is_not_flagged() {
    let fs = plain_snapshot();
    let prefix = "/tmp/venvs/sample".to_string();
    let exe = format!("{prefix}/bin/python");

    let env = make_env(exe.clone(), prefix.clone(), "3.12.7", vec![exe.clone()]);
    let resolved = make_env(exe.clone(), prefix, "3.12.7", vec![exe]);

    let result = report_inaccuracies_identified_after_resolving(&env, &resolved, &fs);
    assert!(result.is_none(), "identical prefixes should not be flagged");
}

#[test]
fn symlinked_prefix_is_not_flagged() {
    let real_prefix = "/tmp/venvs/versioned/myvenv-1.0.51".to_string();
    let symlink_prefix = "/tmp/venvs/myvenv".to_string();
    // Canonicalizing the symlink path yields the real directory.
    let fs = FsSnapshot {
        files: vec![],
        dirs: vec![],
        canon: vec![(symlink_prefix.clone(), real_prefix.clone())],
        case_insensitive: false,
    };

    let exe = format!("{symlink_prefix}/bin/python");

    // Discovery sees the symlink path as prefix
    let env = make_env(exe.clone(), symlink_prefix, "3.12.7", vec![exe.clone()]);
    // Resolution (spawning Python) returns the canonical path
    let resolved = make_env(exe.clone(), real_prefix, "3.12.7", vec![exe]);

    let result = report_inaccuracies_identified_after_resolving(&env, &resolved, &fs);
    assert!(
        result.is_none(),
        "symlinked prefix to the same directory should not be flagged"
    );
}

#[test]
fn different_prefix_is_flagged() {
    let fs = plain_snapshot();
    let prefix_a = "/tmp/venvs/env_a".to_string();
    let prefix_b = "/tmp/venvs/env_b".to_string();

    let exe = format!("{prefix_a}/bin/python");

    let env = make_env(exe.clone(), prefix_a, "3.12.7", vec![exe.clone()]);
    let resolved = make_env(exe.clone(), prefix_b, "3.12.7", vec![exe]);

    let result = report_inaccuracies_identified_after_resolving(&env, &resolved, &fs);
    let event = result.expect("genuinely different prefixes should be flagged");
    assert_eq!(event.invalid_prefix, Some(true));
}

#[test]
fn none_prefix_is_not_flagged() {
    let fs = plain_snapshot();
    let prefix = "/tmp/venvs/sample".to_string();
    let exe = format!("{prefix}/bin/python");

    // env has no prefix
    let env = PythonEnvironmentBuilder::new(Some(PythonEnvironmentKind::Venv))
        .executable(Some(exe.clone()))
        .version(Some("3.12.7".to_string()))
        .symlinks(Some(vec![exe.clone()]))
        .build();
    let resolved = make_env(exe.clone(), prefix, "3.12.7", vec![exe]);

    let result = report_inaccuracies_identified_after_resolving(&env, &resolved, &fs);
    assert!(
        result.is_none(),
        "None prefix should not cause any inaccuracy flag"
    );
}
