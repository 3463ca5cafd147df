use pet_discovery::env_variables::EnvVariables;
use pet_discovery::locators::merge_results;
use pet_discovery::manager::{find_conda_binary, is_mamba_executable, CondaManager};
use pet_discovery::os_environment::{Environment, EnvironmentApi};
use pet_discovery::path::norm_case;
use pet_discovery::python_environment::{
    Architecture, PythonEnv, PythonEnvironmentBuilder, PythonEnvironmentKind,
};
use pet_discovery::snapshot::FsSnapshot;
use pet_discovery::telemetry::{
    are_versions_different, report_inaccuracies_identified_after_resolving,
};
use pet_discovery::venv::Venv;
use pet_discovery::virtualenv::VirtualEnv;
use pet_discovery::windows_registry::WindowsRegistry;
use pet_discovery::{Locator, LocatorResult};

fn plain_snapshot(files: Vec<&str>) -> FsSnapshot {
    FsSnapshot {
        files: files.into_iter().map(|s| s.to_string()).collect(),
        dirs: vec![],
        canon: vec![],
        case_insensitive: false,
    }
}

#[test]
fn versions_with_same_leading_triple_compare_equal() {
    // "3.12.7" and "3.12.7.final.0" both carry the numeric triple 3.12.7.
    assert_eq!(are_versions_different("3.12.7", "3.12.7.final.0"), Some(false));
    assert_eq!(are_versions_different("3.12.7", "3.11.9"), Some(true));
}

#[test]
fn version_comparison_uses_the_extracted_triple_not_the_raw_string() {
    // The raw strings differ; only the extracted leading triples decide.
    assert_eq!(are_versions_different("Python 3.12.7 release", "3.12.7"), Some(false));
    assert_eq!(are_versions_different("3.12.7rc1", "v3.12.7"), Some(false));
}

#[test]
fn version_without_numeric_triple_gives_no_opinion() {
    assert_eq!(are_versions_different("unknown", "3.12.7"), None);
    assert_eq!(are_versions_different("3.12.7", ""), None);
    assert_eq!(are_versions_different("3.12", "3.12.7"), None);
}

#[test]
fn conda_wins_over_mamba_in_same_root() {
    let fs = plain_snapshot(vec![
        "opt/forge/bin/conda",
        "opt/forge/bin/mamba",
        "opt/forge/bin/micromamba",
    ]);
    let manager = CondaManager::from("opt/forge", &fs).unwrap();
    assert_eq!(manager.manager_type, pet_discovery::python_environment::EnvManagerType::Conda);
    assert_eq!(manager.executable, "opt/forge/bin/conda");
}

#[test]
fn mamba_wins_over_micromamba_in_same_root() {
    let fs = plain_snapshot(vec!["opt/forge/bin/mamba", "opt/forge/bin/micromamba"]);
    let manager = CondaManager::from("opt/forge", &fs).unwrap();
    assert_eq!(manager.manager_type, pet_discovery::python_environment::EnvManagerType::Mamba);
    assert_eq!(manager.executable, "opt/forge/bin/mamba");
    assert_eq!(manager.version, None);
}

#[test]
fn conda_present_child_still_resolves_to_root() {
    // Even when the nested env has its own conda binary, `envs/<name>`
    // resolves to the parent installation's manager.
    let fs = plain_snapshot(vec![
        "opt/forge/bin/conda",
        "opt/forge/envs/child/bin/conda",
    ]);
    let manager = CondaManager::from("opt/forge/envs/child", &fs).unwrap();
    assert_eq!(manager.executable, "opt/forge/bin/conda");
}

#[test]
fn mamba_stem_matches_in_any_casing() {
    assert!(is_mamba_executable("/x/MaMbA"));
    assert!(is_mamba_executable("/x/MICROMAMBA.EXE"));
    assert!(!is_mamba_executable("/x/Conda"));
    assert!(!is_mamba_executable("/x/mamba2"));
}

#[test]
fn path_scan_skips_nonmatching_directories() {
    let fs = plain_snapshot(vec!["b/conda"]);
    let mut env = EnvironmentApi::new();
    env.add_env_var("PATH".to_string(), "a:b:c".to_string());
    let vars = EnvVariables::from(&env);
    assert_eq!(find_conda_binary(&vars, &fs), Some("b/conda".to_string()));
}

#[test]
fn path_scan_returns_first_match_in_order() {
    let fs = plain_snapshot(vec!["b/conda", "c/conda"]);
    let mut env = EnvironmentApi::new();
    env.add_env_var("PATH".to_string(), "a:b:c".to_string());
    let vars = EnvVariables::from(&env);
    assert_eq!(find_conda_binary(&vars, &fs), Some("b/conda".to_string()));
}

#[test]
fn manager_binary_scan_prefers_conda_over_earlier_mamba() {
    let fs = plain_snapshot(vec!["a/mamba", "b/conda"]);
    let mut env = EnvironmentApi::new();
    env.add_env_var("PATH".to_string(), "a:b".to_string());
    let vars = EnvVariables::from(&env);
    assert_eq!(
        pet_discovery::manager::find_manager_binary(&vars, &fs),
        Some("b/conda".to_string())
    );
}

#[test]
fn empty_path_finds_nothing() {
    let fs = plain_snapshot(vec!["b/conda"]);
    let env = EnvironmentApi::new();
    let vars = EnvVariables::from(&env);
    assert_eq!(find_conda_binary(&vars, &fs), None);
}

#[test]
fn norm_case_folds_only_when_requested() {
    assert_eq!(norm_case("/Opt/PyThOn", true), "/opt/python");
    assert_eq!(norm_case("/Opt/PyThOn", false), "/Opt/PyThOn");
}

#[test]
fn validator_flags_architecture_mismatch() {
    let fs = plain_snapshot(vec![]);
    let exe = "/v/bin/python".to_string();
    let env = PythonEnvironmentBuilder::new(Some(PythonEnvironmentKind::Venv))
        .executable(Some(exe.clone()))
        .symlinks(Some(vec![exe.clone()]))
        .arch(Some(Architecture::X86))
        .build();
    let resolved = PythonEnvironmentBuilder::new(Some(PythonEnvironmentKind::Venv))
        .executable(Some(exe.clone()))
        .arch(Some(Architecture::X64))
        .build();
    let report = report_inaccuracies_identified_after_resolving(&env, &resolved, &fs).unwrap();
    assert_eq!(report.invalid_arch, Some(true));
    assert_eq!(report.invalid_prefix, Some(false));
    assert_eq!(report.invalid_version, None);
}

#[test]
fn validator_flags_executable_missing_from_symlinks() {
    let fs = plain_snapshot(vec![]);
    let exe = "/v/bin/python".to_string();
    let env = PythonEnvironmentBuilder::new(Some(PythonEnvironmentKind::Venv))
        .executable(Some(exe.clone()))
        .symlinks(Some(vec!["/v/bin/python3".to_string()]))
        .build();
    let resolved = PythonEnvironmentBuilder::new(Some(PythonEnvironmentKind::Venv))
        .executable(Some(exe))
        .build();
    let report = report_inaccuracies_identified_after_resolving(&env, &resolved, &fs).unwrap();
    assert_eq!(report.executable_not_in_symlinks, Some(true));
    assert_eq!(report.invalid_executable, Some(false));
}

#[test]
fn validator_without_resolved_executable_clears_executable_flags() {
    // Without a resolved executable the two executable rules have
    // nothing to compare against and are forced false; with nothing
    // else differing, no report is emitted.
    let fs = plain_snapshot(vec![]);
    let env = PythonEnvironmentBuilder::new(Some(PythonEnvironmentKind::Venv))
        .executable(Some("/v/bin/python".to_string()))
        .prefix(Some("/somewhere/else".to_string()))
        .build();
    let resolved = PythonEnvironmentBuilder::new(None).build();
    assert!(report_inaccuracies_identified_after_resolving(&env, &resolved, &fs).is_none());
}

#[test]
fn prefix_divergence_reported_even_without_resolved_executable() {
    // The rules are computed independently: a genuine prefix
    // disagreement is reported even when the resolution carried no
    // executable.
    let fs = plain_snapshot(vec![]);
    let env = PythonEnvironmentBuilder::new(Some(PythonEnvironmentKind::Venv))
        .executable(Some("/a/bin/python".to_string()))
        .prefix(Some("/a".to_string()))
        .build();
    let resolved = PythonEnvironmentBuilder::new(Some(PythonEnvironmentKind::Venv))
        .prefix(Some("/b".to_string()))
        .build();
    let report = report_inaccuracies_identified_after_resolving(&env, &resolved, &fs).unwrap();
    assert_eq!(report.invalid_prefix, Some(true));
    assert_eq!(report.invalid_executable, Some(false));
    assert_eq!(report.executable_not_in_symlinks, Some(false));
}

#[test]
fn absent_resolved_architecture_is_not_flagged() {
    // The architecture flag needs both sides to report one.
    let fs = plain_snapshot(vec![]);
    let exe = "/v/bin/python".to_string();
    let env = PythonEnvironmentBuilder::new(Some(PythonEnvironmentKind::Venv))
        .executable(Some(exe.clone()))
        .symlinks(Some(vec![exe.clone()]))
        .arch(Some(Architecture::X86))
        .build();
    let resolved = PythonEnvironmentBuilder::new(Some(PythonEnvironmentKind::Venv))
        .executable(Some(exe))
        .build();
    assert!(report_inaccuracies_identified_after_resolving(&env, &resolved, &fs).is_none());
}

#[test]
fn venv_recognized_by_pyvenv_cfg() {
    let fs = plain_snapshot(vec!["/v/bin/pyvenv.cfg"]);
    let candidate = PythonEnv::new(
        "/v/bin/python".to_string(),
        Some("/v".to_string()),
        Some("3.12.7".to_string()),
    );
    let locator = Venv::new();
    let found = locator.from(&candidate, &fs).expect("pyvenv.cfg beside the binary");
    assert_eq!(found.kind, Some(PythonEnvironmentKind::Venv));
    assert_eq!(found.executable, Some("/v/bin/python".to_string()));
    assert_eq!(found.prefix, Some("/v".to_string()));
    assert!(locator.find().is_none());

    let bare = plain_snapshot(vec![]);
    assert!(locator.from(&candidate, &bare).is_none());
}

#[test]
fn virtualenv_recognized_by_activate_script() {
    let fs = plain_snapshot(vec!["/v/bin/activate.fish"]);
    let candidate = PythonEnv::new("/v/bin/python".to_string(), Some("/v".to_string()), None);
    let locator = VirtualEnv::new();
    let found = locator.from(&candidate, &fs).expect("activate script beside the binary");
    assert_eq!(found.kind, Some(PythonEnvironmentKind::VirtualEnv));
    assert!(locator.find().is_none());

    // Without a prefix the candidate is never a virtualenv.
    let no_prefix = PythonEnv::new("/v/bin/python".to_string(), None, None);
    assert!(locator.from(&no_prefix, &fs).is_none());
}

#[test]
fn registry_rejects_conda_prefixed_candidates() {
    let fs = FsSnapshot {
        files: vec![],
        dirs: vec!["/c/env/conda-meta".to_string()],
        canon: vec![],
        case_insensitive: false,
    };
    let advertised = PythonEnvironmentBuilder::new(Some(PythonEnvironmentKind::WindowsRegistry))
        .executable(Some("/c/env/python".to_string()))
        .build();
    let locator = WindowsRegistry::from(Some(LocatorResult {
        managers: vec![],
        environments: vec![advertised],
    }));
    let candidate = PythonEnv::new("/c/env/python".to_string(), Some("/c/env".to_string()), None);
    assert!(locator.from(&candidate, &fs).is_none());

    // The same candidate without the conda marker matches the enumeration.
    let plain = plain_snapshot(vec![]);
    let found = locator.from(&candidate, &plain).expect("exact executable match");
    assert_eq!(found.kind, Some(PythonEnvironmentKind::WindowsRegistry));
    assert!(locator.find().is_some());
}

#[test]
fn merge_keeps_first_of_duplicate_environments() {
    let fs = plain_snapshot(vec![]);
    let venv_env = PythonEnvironmentBuilder::new(Some(PythonEnvironmentKind::Venv))
        .executable(Some("/v/bin/python".to_string()))
        .build();
    let reg_env = PythonEnvironmentBuilder::new(Some(PythonEnvironmentKind::WindowsRegistry))
        .executable(Some("/v/bin/python".to_string()))
        .build();
    let other = PythonEnvironmentBuilder::new(Some(PythonEnvironmentKind::Conda))
        .prefix(Some("/conda/envs/x".to_string()))
        .build();
    let merged = merge_results(
        &fs,
        vec![
            LocatorResult { managers: vec![], environments: vec![venv_env] },
            LocatorResult { managers: vec![], environments: vec![reg_env, other] },
        ],
    );
    assert_eq!(merged.environments.len(), 2);
    // The earlier-registered strategy's record wins for the shared key.
    assert_eq!(merged.environments[0].kind, Some(PythonEnvironmentKind::Venv));
    assert_eq!(merged.environments[1].kind, Some(PythonEnvironmentKind::Conda));
}

#[test]
fn environment_snapshot_answers_lookups() {
    let mut env = EnvironmentApi::new();
    env.add_env_var("PATH".to_string(), "/usr/bin".to_string());
    env.add_env_var("PATH".to_string(), "/shadowed".to_string());
    env.set_home(Some("/home/dev".to_string()));
    // The first binding of a key wins.
    assert_eq!(env.get_env_var("PATH".to_string()), Some("/usr/bin".to_string()));
    assert_eq!(env.get_env_var("MISSING".to_string()), None);
    assert_eq!(env.get_user_home(), Some("/home/dev".to_string()));
    assert_eq!(env.get_root(), None);

    let locations = env.get_know_global_search_locations();
    // The search-path entry comes first and is not repeated.
    assert_eq!(locations[0], "/usr/bin");
    assert_eq!(locations.iter().filter(|l| l.as_str() == "/usr/bin").count(), 1);
    // The home-local bin directory comes last.
    assert_eq!(locations.last().unwrap(), "/home/dev/.local/bin");
    assert!(locations.iter().any(|l| l == "/snap/bin"));
}

#[test]
fn resolved_manager_converts_to_result_record() {
    let fs = plain_snapshot(vec!["opt/forge/bin/conda"]);
    let manager = CondaManager::from("opt/forge", &fs).unwrap();
    let record = manager.to_manager();
    assert_eq!(record.executable, "opt/forge/bin/conda");
    assert_eq!(record.version, None);
    assert_eq!(record.tool, pet_discovery::python_environment::EnvManagerType::Conda);
}

#[test]
fn conda_version_read_from_package_metadata_name() {
    let fs = FsSnapshot {
        files: vec![
            "root/bin/conda".to_string(),
            "root/conda-meta/history".to_string(),
            "root/conda-meta/conda-4.11.0-py39h06a4308_0.json".to_string(),
        ],
        dirs: vec![],
        canon: vec![],
        case_insensitive: false,
    };
    let manager = CondaManager::from("root", &fs).unwrap();
    assert_eq!(manager.version, Some("4.11.0".to_string()));

    // A root without readable package metadata yields no version.
    let bare = plain_snapshot(vec!["root/bin/conda"]);
    let manager = CondaManager::from("root", &bare).unwrap();
    assert_eq!(manager.version, None);
}
