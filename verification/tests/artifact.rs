use strip_check::artifact::{
    all_match, artifact_path, filter_artifacts, is_wasm_artifact, parent_dir,
};
use strip_check::check_artifacts;
use strip_check::scan::registry_prefix;
use strip_check::Strip;

#[test]
fn parent_dir_takes_everything_before_last_slash() {
    assert_eq!(parent_dir("/proj/Cargo.toml"), Some("/proj".to_string()));
    assert_eq!(parent_dir("a/b/c"), Some("a/b".to_string()));
    assert_eq!(parent_dir("/a"), Some("".to_string()));
    assert_eq!(parent_dir("Cargo.toml"), None);
    assert_eq!(parent_dir(""), None);
    assert_eq!(parent_dir("a/b/"), Some("a/b".to_string()));
}

#[test]
fn artifact_path_is_fixed_under_manifest_dir() {
    let p = artifact_path("/proj", "soroban_eth_abi");
    assert_eq!(
        p.as_str(),
        "/proj/target/wasm32-unknown-unknown/release/soroban_eth_abi.wasm"
    );
}

#[test]
fn wasm_artifact_names_end_in_the_extension() {
    assert!(is_wasm_artifact("contract.wasm"));
    assert!(is_wasm_artifact(".wasm"));
    assert!(!is_wasm_artifact("contract.wasm.txt"));
    assert!(!is_wasm_artifact("wasm"));
    assert!(!is_wasm_artifact("contract.wat"));
    assert!(!is_wasm_artifact(""));
}

#[test]
fn filter_keeps_exactly_the_wasm_files_in_order() {
    let names: Vec<String> = vec![
        "a.wasm".to_string(),
        "notes.txt".to_string(),
        "b.wasm".to_string(),
        "b.wasm.d".to_string(),
    ];
    let picked = filter_artifacts(&names);
    assert_eq!(picked, vec!["a.wasm".to_string(), "b.wasm".to_string()]);
}

#[test]
fn all_match_fails_on_a_single_violation() {
    assert!(all_match(&vec![], true));
    assert!(all_match(&vec![true, true], true));
    assert!(!all_match(&vec![true, false, true], true));
    assert!(all_match(&vec![false, false], false));
    assert!(!all_match(&vec![false, true], false));
}

#[test]
fn one_violating_artifact_fails_the_whole_run() {
    let prefix = registry_prefix("/home/u/.cargo");
    let clean = b"nothing embedded".to_vec();
    let leaky = b"x/home/u/.cargo/registry/src/y".to_vec();
    // Strip enabled: every artifact must be clean.
    assert!(check_artifacts(&vec![clean.clone(), clean.clone()], prefix.as_str(), Strip::Yes));
    assert!(!check_artifacts(&vec![clean.clone(), leaky.clone()], prefix.as_str(), Strip::Yes));
    // Strip disabled: every artifact must embed the path.
    assert!(check_artifacts(&vec![leaky.clone(), leaky.clone()], prefix.as_str(), Strip::No));
    assert!(!check_artifacts(&vec![leaky, clean], prefix.as_str(), Strip::No));
    // An empty listing passes vacuously.
    assert!(check_artifacts(&vec![], prefix.as_str(), Strip::Yes));
}
