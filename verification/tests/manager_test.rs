use pet_discovery::env_variables::EnvVariables;
use pet_discovery::manager::{find_conda_binary, find_mamba_binary, is_mamba_executable, CondaManager};
use pet_discovery::os_environment::EnvironmentApi;
use pet_discovery::python_environment::EnvManagerType;
use pet_discovery::snapshot::FsSnapshot;

fn resolve_test_path(parts: &[&str]) -> String {
    let mut p = String::from("tests");
    for part in parts {
        p.push('/');
        p.push_str(part);
    }
    p
}

fn join(dir: &str, name: &str) -> String {
    format!("{dir}/{name}")
}

/// The anaconda fixture: a root with `bin/conda` and package metadata
/// recording conda 23.1.0, plus two child environments under `envs`.
fn anaconda_snapshot() -> FsSnapshot {
    let root = resolve_test_path(&["unix", "anaconda3-2023.03"]);
    FsSnapshot {
        files: vec![
            join(&root, "bin/conda"),
            join(&root, "conda-meta/conda-23.1.0-py310hff52083_0.json"),
            join(&root, "envs/env_python_3/bin/python"),
        ],
        dirs: vec![
            join(&root, "conda-meta"),
            join(&root, "envs/env_python_3"),
            join(&root, "envs/without_python"),
        ],
        canon: vec![],
        case_insensitive: false,
    }
}

/// The miniforge fixture: `bin/conda` and `bin/mamba` side by side,
/// with metadata recording conda 24.1.0.
fn miniforge_snapshot() -> FsSnapshot {
    let root = resolve_test_path(&["unix", "miniforge3-mamba"]);
    FsSnapshot {
        files: vec![
            join(&root, "bin/conda"),
            join(&root, "bin/mamba"),
            join(&root, "conda-meta/conda-24.1.0-py311h38be061_0.json"),
        ],
        dirs: vec![join(&root, "conda-meta"), join(&root, "envs/myenv")],
        canon: vec![],
        case_insensitive: false,
    }
}

/// A root holding only `bin/micromamba`.
fn micromamba_snapshot() -> FsSnapshot {
    let root = resolve_test_path(&["unix", "micromamba-only"]);
    FsSnapshot {
        files: vec![join(&root, "bin/micromamba")],
        dirs: vec![],
        canon: vec![],
        case_insensitive: false,
    }
}

fn create_test_environment(vars: Vec<(&str, String)>) -> EnvironmentApi {
    let mut env = EnvironmentApi::new();
    for (k, v) in vars {
        env.add_env_var(k.to_string(), v);
    }
    env
}

#[test]
fn finds_manager_from_root_env() {
    let fs = anaconda_snapshot();
    let path = resolve_test_path(&["unix", "anaconda3-2023.03"]);

    let manager = CondaManager::from(&path, &fs).unwrap();

    assert_eq!(manager.executable, join(&join(&path, "bin"), "conda"));
    assert_eq!(manager.version, Some("23.1.0".into()));
}

#[test]
fn finds_manager_from_root_within_an_env() {
    let fs = anaconda_snapshot();
    let conda_dir = resolve_test_path(&["unix", "anaconda3-2023.03"]);
    let path = resolve_test_path(&["unix", "anaconda3-2023.03", "envs", "env_python_3"]);

    let manager = CondaManager::from(&path, &fs).unwrap();

    assert_eq!(manager.executable, join(&join(&conda_dir, "bin"), "conda"));
    assert_eq!(manager.version, Some("23.1.0".into()));

    // Try a conda env without Python
    let path = resolve_test_path(&["unix", "anaconda3-2023.03", "envs", "without_python"]);

    let manager = CondaManager::from(&path, &fs).unwrap();

    assert_eq!(manager.executable, join(&join(&conda_dir, "bin"), "conda"));
    assert_eq!(manager.version, Some("23.1.0".into()));
}

#[test]
fn does_not_find_conda_env_for_bogus_dirs() {
    let fs = anaconda_snapshot();
    let path = resolve_test_path(&["unix", "bogus_directory"]);

    assert!(CondaManager::from(&path, &fs).is_none());
}

#[test]
fn finds_conda_binary_from_path() {
    let fs = anaconda_snapshot();
    let anaconda_bin = resolve_test_path(&["unix", "anaconda3-2023.03", "bin"]);

    let env = create_test_environment(vec![("PATH", anaconda_bin)]);
    let env_vars = EnvVariables::from(&env);

    let conda_binary = find_conda_binary(&env_vars, &fs);

    assert!(conda_binary.is_some());
    assert_eq!(
        conda_binary.unwrap(),
        resolve_test_path(&["unix", "anaconda3-2023.03", "bin", "conda"])
    );
}

#[test]
fn finds_conda_binary_from_condabin_path() {
    let root = resolve_test_path(&["unix", "anaconda3-2023.03"]);
    let fs = FsSnapshot {
        files: vec![join(&root, "condabin/conda")],
        dirs: vec![],
        canon: vec![],
        case_insensitive: false,
    };
    let anaconda_condabin = resolve_test_path(&["unix", "anaconda3-2023.03", "condabin"]);

    let env = create_test_environment(vec![("PATH", anaconda_condabin)]);
    let env_vars = EnvVariables::from(&env);

    let conda_binary = find_conda_binary(&env_vars, &fs);

    assert!(conda_binary.is_some());
    assert_eq!(
        conda_binary.unwrap(),
        resolve_test_path(&["unix", "anaconda3-2023.03", "condabin", "conda"])
    );
}

#[test]
fn does_not_find_conda_binary_when_not_on_path() {
    let fs = anaconda_snapshot();
    let some_other_path = resolve_test_path(&["unix", "bogus_directory"]);

    let env = create_test_environment(vec![("PATH", some_other_path)]);
    let env_vars = EnvVariables::from(&env);

    let conda_binary = find_conda_binary(&env_vars, &fs);

    assert!(conda_binary.is_none());
}

#[test]
fn is_mamba_executable_identifies_mamba_binaries() {
    assert!(is_mamba_executable("/usr/bin/mamba"));
    assert!(is_mamba_executable("/usr/bin/micromamba"));
    assert!(is_mamba_executable("/opt/miniforge3/bin/mamba"));

    // Should NOT match conda or python
    assert!(!is_mamba_executable("/usr/bin/conda"));
    assert!(!is_mamba_executable("/usr/bin/python"));

    // Windows-style paths with backslashes
    assert!(is_mamba_executable("C:\\Scripts\\mamba.exe"));
    assert!(is_mamba_executable("C:\\Scripts\\micromamba.exe"));
    assert!(!is_mamba_executable("C:\\Scripts\\conda.exe"));
}

#[test]
fn finds_mamba_manager_from_miniforge_root() {
    let fs = miniforge_snapshot();
    let path = resolve_test_path(&["unix", "miniforge3-mamba"]);
    let manager = CondaManager::from(&path, &fs).unwrap();

    // Should find conda first (conda takes precedence)
    assert_eq!(manager.executable, join(&join(&path, "bin"), "conda"));
    assert_eq!(manager.version, Some("24.1.0".into()));
    assert_eq!(manager.manager_type, EnvManagerType::Conda);
}

#[test]
fn finds_mamba_manager_when_only_micromamba_available() {
    let fs = micromamba_snapshot();
    let path = resolve_test_path(&["unix", "micromamba-only"]);
    let manager = CondaManager::from(&path, &fs).unwrap();

    // No conda binary, should fall back to micromamba
    assert_eq!(manager.executable, join(&join(&path, "bin"), "micromamba"));
    assert_eq!(manager.version, None); // version is unknown for mamba
    assert_eq!(manager.manager_type, EnvManagerType::Mamba);
}

#[test]
fn finds_mamba_binary_from_path() {
    let fs = miniforge_snapshot();
    let miniforge_bin = resolve_test_path(&["unix", "miniforge3-mamba", "bin"]);

    let env = create_test_environment(vec![("PATH", miniforge_bin)]);
    let env_vars = EnvVariables::from(&env);

    let mamba_binary = find_mamba_binary(&env_vars, &fs);

    assert!(mamba_binary.is_some());
    assert_eq!(
        mamba_binary.unwrap(),
        resolve_test_path(&["unix", "miniforge3-mamba", "bin", "mamba"])
    );
}

#[test]
fn finds_micromamba_binary_from_path() {
    let fs = micromamba_snapshot();
    let micromamba_bin = resolve_test_path(&["unix", "micromamba-only", "bin"]);

    let env = create_test_environment(vec![("PATH", micromamba_bin)]);
    let env_vars = EnvVariables::from(&env);

    let mamba_binary = find_mamba_binary(&env_vars, &fs);

    assert!(mamba_binary.is_some());
    assert_eq!(
        mamba_binary.unwrap(),
        resolve_test_path(&["unix", "micromamba-only", "bin", "micromamba"])
    );
}

#[test]
fn does_not_find_mamba_binary_when_not_on_path() {
    // Use the anaconda path which has conda but no mamba
    let fs = anaconda_snapshot();
    let anaconda_bin = resolve_test_path(&["unix", "anaconda3-2023.03", "bin"]);

    let env = create_test_environment(vec![("PATH", anaconda_bin)]);
    let env_vars = EnvVariables::from(&env);

    let mamba_binary = find_mamba_binary(&env_vars, &fs);

    assert!(mamba_binary.is_none());
}

#[test]
fn finds_mamba_manager_from_child_env_in_miniforge() {
    let fs = miniforge_snapshot();
    let path = resolve_test_path(&["unix", "miniforge3-mamba", "envs", "myenv"]);
    let manager = CondaManager::from(&path, &fs).unwrap();

    // Should find the conda manager from the parent install dir
    let conda_dir = resolve_test_path(&["unix", "miniforge3-mamba"]);
    assert_eq!(manager.executable, join(&join(&conda_dir, "bin"), "conda"));
    assert_eq!(manager.manager_type, EnvManagerType::Conda);
}
