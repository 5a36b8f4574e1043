use sidecar_supervisor::command::{
    development_entry, serve_command, sync_command, SidecarCommand, BACKEND_HOST, BACKEND_PORT,
    BUNDLED_ENTRY, ENTRY_FILE, RUNTIME,
};
use sidecar_supervisor::provision::{manifest_copy, FileCopy, BUNDLE_DIRECTORY, MANIFEST_FILE};

fn strings(words: &[&str]) -> Vec<String> {
    words.iter().map(|word| word.to_string()).collect()
}

fn holds_option(args: &[String], flag: &str, value: &str) -> bool {
    args.windows(2).any(|pair| pair[0] == flag && pair[1] == value)
}

#[test]
fn constants_name_the_fixed_contract() {
    assert_eq!(RUNTIME, "uv");
    assert_eq!(BACKEND_HOST, "127.0.0.1");
    assert_eq!(BACKEND_PORT, "60316");
    assert_eq!(ENTRY_FILE, "app.py");
    assert_eq!(BUNDLED_ENTRY, "api/app.py");
    assert_eq!(BUNDLE_DIRECTORY, "api");
    assert_eq!(MANIFEST_FILE, "pyproject.toml");
}

#[test]
fn sync_command_is_scoped_to_the_environment() {
    assert_eq!(
        sync_command("/srv/api"),
        SidecarCommand {
            program: "uv".to_string(),
            args: strings(&["sync", "--directory", "/srv/api"]),
        }
    );
}

#[test]
fn sync_command_is_the_same_on_every_launch() {
    assert_eq!(sync_command("/srv/api"), sync_command("/srv/api"));
}

#[test]
fn serve_command_has_the_exact_arguments() {
    assert_eq!(
        serve_command("/srv/api", "/srv/api/app.py"),
        SidecarCommand {
            program: "uv".to_string(),
            args: strings(&[
                "run",
                "--directory",
                "/srv/api",
                "/srv/api/app.py",
                "--host",
                "127.0.0.1",
                "--port",
                "60316",
            ]),
        }
    );
}

#[test]
fn serve_command_binds_the_fixed_endpoint() {
    let inputs = [
        ("/srv/api", "/srv/api/app.py"),
        ("/data/app", "/usr/lib/app/resources/api/app.py"),
        ("", ""),
        ("--host", "--port"),
    ];
    for (environment, entry) in inputs {
        let command = serve_command(environment, entry);
        assert!(holds_option(&command.args, "--host", "127.0.0.1"));
        assert!(holds_option(&command.args, "--port", "60316"));
        assert!(holds_option(&command.args, "--directory", environment));
        assert_eq!(command.args.len(), 8);
    }
}

#[test]
fn serve_command_keeps_paths_with_spaces_whole() {
    let command = serve_command("/srv/my app", "/srv/my app/app.py");
    assert_eq!(command.args[2], "/srv/my app");
    assert_eq!(command.args[3], "/srv/my app/app.py");
}

#[test]
fn development_entry_lies_in_the_project() {
    assert_eq!(development_entry("/home/user/project/api"), "/home/user/project/api/app.py");
}

#[test]
fn manifest_copy_names_source_and_destination() {
    assert_eq!(
        manifest_copy("/data/app", "/usr/lib/app/resources/api"),
        FileCopy {
            from: "/usr/lib/app/resources/api/pyproject.toml".to_string(),
            to: "/data/app/pyproject.toml".to_string(),
        }
    );
}

#[test]
fn manifest_copy_is_the_same_on_every_launch() {
    assert_eq!(manifest_copy("/data/app", "/res/api"), manifest_copy("/data/app", "/res/api"));
}
