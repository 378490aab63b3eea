use zeppelin_cli::outcome::RunOutcome;
use zeppelin_cli::paths::{
    append_extension, derive_output_path, has_container_extension, overwrite_decision,
    plan_paths, resolve_mode, OperationMode,
};

#[test]
fn plain_input_is_encrypted() {
    assert_eq!(resolve_mode("foo.txt", false), OperationMode::Encrypt);
    assert_eq!(resolve_mode("archive", false), OperationMode::Encrypt);
    assert_eq!(resolve_mode("notes.zepx", false), OperationMode::Encrypt);
}

#[test]
fn container_input_is_decrypted() {
    assert_eq!(resolve_mode("secret.zep", false), OperationMode::Decrypt);
    assert_eq!(resolve_mode("dir/secret.zep", true), OperationMode::Decrypt);
}

#[test]
fn decrypt_flag_forces_decrypt() {
    assert_eq!(resolve_mode("secret.dat", true), OperationMode::Decrypt);
    assert_eq!(resolve_mode("plain", true), OperationMode::Decrypt);
}

#[test]
fn container_extension_detection() {
    assert!(has_container_extension("a/b.zep"));
    assert!(!has_container_extension("a.zep/b"));
    assert!(!has_container_extension(".zep"));
    assert!(!has_container_extension("b.ZEP"));
}

#[test]
fn append_keeps_existing_extension() {
    let mut p = String::from("foo.txt");
    append_extension(&mut p, "zep");
    assert_eq!(p, "foo.txt.zep");
}

#[test]
fn derived_outputs() {
    assert_eq!(derive_output_path("foo.txt", OperationMode::Encrypt), "foo.txt.zep");
    assert_eq!(derive_output_path("secret.zep", OperationMode::Decrypt), "secret");
    assert_eq!(derive_output_path("dir/secret.zep", OperationMode::Decrypt), "dir/secret");
    assert_eq!(derive_output_path("secret.dat", OperationMode::Decrypt), "secret.dat.unzep");
    assert_eq!(derive_output_path("secret", OperationMode::Decrypt), "secret.unzep");
}

#[test]
fn plan_for_encrypt_without_output() {
    let plan = plan_paths("foo.txt", true, None, false).unwrap();
    assert_eq!(plan.input, "foo.txt");
    assert_eq!(plan.output, "foo.txt.zep");
    assert_eq!(plan.mode, OperationMode::Encrypt);
}

#[test]
fn plan_for_forced_decrypt() {
    let plan = plan_paths("secret.dat", true, None, true).unwrap();
    assert_eq!(plan.output, "secret.dat.unzep");
    assert_eq!(plan.mode, OperationMode::Decrypt);
}

#[test]
fn plan_keeps_explicit_output() {
    let plan = plan_paths("secret.zep", true, Some(String::from("out.bin")), false).unwrap();
    assert_eq!(plan.output, "out.bin");
    assert_eq!(plan.mode, OperationMode::Decrypt);
}

#[test]
fn plan_refuses_output_equal_to_input() {
    let r = plan_paths("foo.txt", true, Some(String::from("foo.txt")), false);
    assert_eq!(
        r,
        Err(RunOutcome::EngineFailure(String::from("Input and output file should be different")))
    );
    let r = plan_paths("secret.zep", true, Some(String::from("secret.zep")), true);
    assert!(matches!(r, Err(RunOutcome::EngineFailure(_))));
}

#[test]
fn plan_reports_missing_input() {
    let r = plan_paths("nowhere.txt", false, Some(String::from("nowhere.txt")), false);
    assert_eq!(r, Err(RunOutcome::PathMissing(String::from("nowhere.txt"))));
    assert_eq!(r.unwrap_err().exit_code(), 2);
}

#[test]
fn overwrite_answers() {
    assert_eq!(overwrite_decision(Some(true)), None);
    assert_eq!(overwrite_decision(Some(false)), Some(RunOutcome::UserCancelled));
    assert_eq!(
        overwrite_decision(None),
        Some(RunOutcome::PromptFailure(String::from("Unable to get user prompt!")))
    );
}

#[test]
fn plan_refuses_other_spelling_of_input() {
    let refused =
        Err(RunOutcome::EngineFailure(String::from("Input and output file should be different")));
    for output in ["a//b", "a/./b", "a/b/", "./a/b"] {
        let r = plan_paths("a/b", true, Some(String::from(output)), false);
        if output == "./a/b" {
            assert!(r.is_ok());
        } else {
            assert_eq!(r, refused);
        }
    }
}
