use sidecar_supervisor::environment::{
    check_environment_path, environment_candidate, environment_source, resolve_environment_path,
    BACKEND_DIRECTORY,
};
use sidecar_supervisor::error::{Failure, StartupError};
use sidecar_supervisor::host::{BuildMode, HostPath};

fn ok(path: &str) -> Result<String, String> {
    Ok(path.to_string())
}

fn rejected(path: &str) -> Result<String, StartupError> {
    Err(StartupError { failure: Failure::EnvironmentNotAbsolute, detail: path.to_string() })
}

#[test]
fn development_asks_for_the_working_directory() {
    assert_eq!(environment_source(BuildMode::Development), HostPath::WorkingDirectory);
}

#[test]
fn production_asks_for_the_data_directory() {
    assert_eq!(environment_source(BuildMode::Production), HostPath::AppDataDirectory);
}

#[test]
fn backend_directory_is_api() {
    assert_eq!(BACKEND_DIRECTORY, "api");
}

#[test]
fn development_resolves_to_the_sibling_directory() {
    let resolved = resolve_environment_path(BuildMode::Development, ok("/home/user/project/src-tauri"));
    assert_eq!(resolved, Ok("/home/user/project/api".to_string()));
}

#[test]
fn development_walks_one_level_only() {
    let resolved = resolve_environment_path(BuildMode::Development, ok("/a/b/c/d"));
    assert_eq!(resolved, Ok("/a/b/c/api".to_string()));
}

#[test]
fn development_ignores_a_trailing_separator() {
    let resolved = resolve_environment_path(BuildMode::Development, ok("/a/b/"));
    assert_eq!(resolved, Ok("/a/api".to_string()));
}

#[test]
fn development_at_the_root_stays_at_the_root() {
    let resolved = resolve_environment_path(BuildMode::Development, ok("/"));
    assert_eq!(resolved, Ok("/api".to_string()));
}

#[test]
fn production_uses_the_data_directory_unchanged() {
    let resolved =
        resolve_environment_path(BuildMode::Production, ok("/home/user/.local/share/com.example.app"));
    assert_eq!(resolved, Ok("/home/user/.local/share/com.example.app".to_string()));
}

#[test]
fn host_failure_is_surfaced_in_development() {
    let resolved = resolve_environment_path(BuildMode::Development, Err("no working directory".to_string()));
    assert_eq!(
        resolved,
        Err(StartupError {
            failure: Failure::EnvironmentUnavailable,
            detail: "no working directory".to_string(),
        })
    );
}

#[test]
fn host_failure_is_surfaced_in_production() {
    let resolved = resolve_environment_path(BuildMode::Production, Err("unknown path".to_string()));
    assert_eq!(
        resolved,
        Err(StartupError { failure: Failure::EnvironmentUnavailable, detail: "unknown path".to_string() })
    );
}

#[test]
fn relative_data_directory_is_rejected() {
    assert_eq!(resolve_environment_path(BuildMode::Production, ok("share/app")), rejected("share/app"));
}

#[test]
fn empty_data_directory_is_rejected() {
    assert_eq!(resolve_environment_path(BuildMode::Production, ok("")), rejected(""));
}

#[test]
fn relative_working_directory_is_rejected() {
    assert_eq!(resolve_environment_path(BuildMode::Development, ok("work/dir")), rejected("work/api"));
}

#[test]
fn empty_working_directory_is_rejected() {
    assert_eq!(resolve_environment_path(BuildMode::Development, ok("")), rejected("api"));
}

#[test]
fn resolved_paths_are_absolute_and_not_empty() {
    let answers = ["/", "/srv/app", "/srv/app/", "relative", "", "/a/../b", "./x", "/tmp/ü/data"];
    for mode in [BuildMode::Development, BuildMode::Production] {
        for answer in answers {
            if let Ok(path) = resolve_environment_path(mode, ok(answer)) {
                assert!(!path.is_empty());
                assert!(std::path::Path::new(&path).is_absolute());
            }
        }
    }
}

#[test]
fn resolution_depends_on_mode_and_answer_only() {
    for mode in [BuildMode::Development, BuildMode::Production] {
        let first = resolve_environment_path(mode, ok("/srv/checkout/shell"));
        let second = resolve_environment_path(mode, ok("/srv/checkout/shell"));
        assert_eq!(first, second);
    }
    assert_ne!(
        resolve_environment_path(BuildMode::Development, ok("/srv/checkout/shell")),
        resolve_environment_path(BuildMode::Production, ok("/srv/checkout/shell"))
    );
}

#[test]
fn candidate_in_development_is_beside_the_answer() {
    assert_eq!(environment_candidate(BuildMode::Development, "/w/shell"), "/w/api");
}

#[test]
fn candidate_in_production_is_the_answer() {
    assert_eq!(environment_candidate(BuildMode::Production, "/w/shell"), "/w/shell");
}

#[test]
fn check_accepts_an_absolute_path() {
    assert_eq!(check_environment_path("/w/api".to_string(), true), Ok("/w/api".to_string()));
}

#[test]
fn check_rejects_a_relative_path() {
    assert_eq!(check_environment_path("w/api".to_string(), false), rejected("w/api"));
}

#[test]
fn check_rejects_an_empty_path() {
    assert_eq!(check_environment_path(String::new(), true), rejected(""));
    assert_eq!(check_environment_path(String::new(), false), rejected(""));
}
