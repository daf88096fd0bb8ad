use strip_check::command::{
    build_command, build_failure_message, render_command, CommandLine,
};
use strip_check::{expected_path_presence, scan_matches_mode, Strip};

fn strings(parts: &[&str]) -> Vec<String> {
    parts.iter().map(|p| p.to_string()).collect()
}

#[test]
fn build_command_for_stripping_build() {
    let cmd = build_command("/proj/Cargo.toml", None, None, Strip::Yes);
    assert_eq!(
        cmd.args,
        strings(&["contract", "build", "--manifest-path=/proj/Cargo.toml"])
    );
    assert!(cmd.envs.is_empty());
}

#[test]
fn build_command_for_non_stripping_build() {
    let cmd = build_command("/proj/Cargo.toml", None, None, Strip::No);
    assert_eq!(
        cmd.args,
        strings(&["contract", "build", "--manifest-path=/proj/Cargo.toml"])
    );
    assert_eq!(cmd.envs, vec![("RUSTFLAGS".to_string(), String::new())]);
}

#[test]
fn build_command_with_profile_and_out_dir() {
    let cmd = build_command("/proj/Cargo.toml", Some("release"), Some("/out"), Strip::Yes);
    assert_eq!(
        cmd.args,
        strings(&[
            "contract",
            "build",
            "--manifest-path=/proj/Cargo.toml",
            "--profile=release",
            "--out-dir=/out",
        ])
    );
}

#[test]
fn render_lists_envs_program_then_args() {
    let cmd = CommandLine {
        envs: vec![("RUSTFLAGS".to_string(), String::new())],
        args: strings(&["contract", "build", "--manifest-path=/proj/Cargo.toml"]),
    };
    let line = render_command(&cmd, "(stellar-cli)");
    assert_eq!(
        line.as_str(),
        "RUSTFLAGS='' (stellar-cli) contract build --manifest-path=/proj/Cargo.toml"
    );
}

#[test]
fn render_without_envs() {
    let cmd = CommandLine {
        envs: vec![],
        args: strings(&["contract", "build", "--manifest-path=/proj/Cargo.toml"]),
    };
    let line = render_command(&cmd, "(stellar-cli)");
    assert_eq!(
        line.as_str(),
        "(stellar-cli) contract build --manifest-path=/proj/Cargo.toml"
    );
}

#[test]
fn render_escapes_env_value_with_spaces() {
    let cmd = CommandLine {
        envs: vec![("RUSTFLAGS".to_string(), "linker=gcc -L/foo -Wl,bar".to_string())],
        args: strings(&["contract", "build"]),
    };
    let line = render_command(&cmd, "(stellar-cli)");
    assert_eq!(
        line.as_str(),
        "RUSTFLAGS='linker=gcc -L/foo -Wl,bar' (stellar-cli) contract build"
    );
}

#[test]
fn render_escapes_env_value_with_special_characters() {
    let cmd = CommandLine {
        envs: vec![("K".to_string(), "a'b!c".to_string())],
        args: strings(&["x"]),
    };
    let line = render_command(&cmd, "p");
    assert_eq!(line.as_str(), "K='a'\\''b'\\!'c' p x");
}

#[test]
fn render_keeps_plain_env_value_unquoted() {
    let cmd = CommandLine {
        envs: vec![("K".to_string(), "--cfg=feature/one,two.three+x".to_string())],
        args: strings(&["x"]),
    };
    let line = render_command(&cmd, "p");
    assert_eq!(line.as_str(), "K=--cfg=feature/one,two.three+x p x");
}

#[test]
fn render_keeps_argument_order() {
    let cmd = CommandLine {
        envs: vec![],
        args: strings(&["c", "a", "b"]),
    };
    let line = render_command(&cmd, "p");
    assert_eq!(line.as_str(), "p c a b");
}

#[test]
fn failure_message_carries_the_command() {
    let msg = build_failure_message("RUSTFLAGS='' (stellar-cli) contract build");
    assert_eq!(
        msg.as_str(),
        "failed building with stellar: RUSTFLAGS='' (stellar-cli) contract build"
    );
}

#[test]
fn expected_presence_follows_strip_mode() {
    assert!(!expected_path_presence(Strip::Yes));
    assert!(expected_path_presence(Strip::No));
    assert!(scan_matches_mode(false, Strip::Yes));
    assert!(scan_matches_mode(true, Strip::No));
    assert!(!scan_matches_mode(true, Strip::Yes));
    assert!(!scan_matches_mode(false, Strip::No));
}
