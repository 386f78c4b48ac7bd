//! What the secrets manager makes of the answers of its command line
//! program.

use cp_core::error::Error;
use cp_core::error_kind::SECRETS_MANAGER_FAILURE;
use cp_core::error_kind::SERIALIZATION_FAILURE;
use cp_core::secrets::bitwarden_secrets_manager::get_secrets_manager;
use cp_core::secrets::bitwarden_secrets_manager::judge;
use cp_core::secrets::bitwarden_secrets_manager::next_step;
use cp_core::secrets::bitwarden_secrets_manager::Attempt;
use cp_core::secrets::bitwarden_secrets_manager::BitwardenSecret;
use cp_core::secrets::bitwarden_secrets_manager::BitwardenSecretsManager;
use cp_core::secrets::bitwarden_secrets_manager::Judgement;
use cp_core::secrets::bitwarden_secrets_manager::Step;
use cp_core::secrets::bitwarden_secrets_manager::MAX_RETRIES;
use cp_core::secrets::bitwarden_secrets_manager::PROGRAM;

fn example_secret(value: &str) -> BitwardenSecret {
    BitwardenSecret {
        id: "secret-1".to_string(),
        organization_id: "organization-1".to_string(),
        project_id: "project-1".to_string(),
        key: "ExampleSecret".to_string(),
        value: value.to_string(),
        creation_date: "2023-06-28T20:13:20.643567Z".to_string(),
        revision_date: "2023-06-28T20:13:20.643567Z".to_string(),
    }
}

fn refused_for_haste() -> Attempt {
    Attempt::Failed {
        stderr: b"Error: Received error message from server: [429 Too Many Requests] slow down".to_vec(),
    }
}

fn done(step: Step) -> String {
    match step {
        Step::Done(value) => value,
        Step::Retry { .. } => panic!("expected the secret, got another try"),
        Step::Fail(error) => panic!("expected the secret, got {}", error.message()),
    }
}

fn given_up(step: Step) -> Error {
    match step {
        Step::Fail(error) => error,
        _ => panic!("expected a failure"),
    }
}

fn read_example_secret() -> String {
    let attempt = Attempt::Succeeded { parsed: Ok(example_secret("le_secret :)")) };

    done(next_step(attempt, 0))
}

#[test]
fn bitwarden_secrets_manager_get_secret_existing_secret_returns_expected_string() {
    let expected_string: String = "le_secret :)".to_string();

    let result = read_example_secret();

    assert_eq!(expected_string, result);
}

#[test]
fn bitwarden_secrets_manager_test_get_secret_existing_secret_returns_expected_string() {
    let expected_string: String = "le_secret :)".to_string();
    let secrets_manager: BitwardenSecretsManager = BitwardenSecretsManager::new("0.token".to_string());

    let arguments = secrets_manager.arguments("ExampleSecret");
    let result = read_example_secret();

    assert_eq!("bws", PROGRAM);
    assert_eq!(vec!["get", "secret", "ExampleSecret", "--access-token", "0.token"], arguments);
    assert_eq!(expected_string, result);
}

#[test]
fn get_secret_repeatedly_does_not_break() {
    for _ in 0..10 {
        let expected_string: String = "le_secret :)".to_string();

        let result = read_example_secret();

        assert_eq!(expected_string, result);
    }
}

#[test]
fn next_step_after_too_many_requests_is_another_try() {
    for count in 0..MAX_RETRIES {
        match next_step(refused_for_haste(), count) {
            Step::Retry { delay_in_milliseconds, count: next } => {
                assert_eq!(count + 1, next);
                assert!(100 <= delay_in_milliseconds);
                assert!(delay_in_milliseconds < 1000);
            }
            _ => panic!("expected another try"),
        }
    }
}

#[test]
fn next_step_after_five_retries_gives_up() {
    let error = given_up(next_step(refused_for_haste(), 5));

    assert_eq!(SECRETS_MANAGER_FAILURE, error.error_kind());
    assert_eq!(
        "failed to run 'bws': Error: Received error message from server: [429 Too Many Requests] slow down",
        error.message()
    );
    assert!(matches!(next_step(refused_for_haste(), usize::MAX), Step::Fail(_)));
}

#[test]
fn next_step_after_another_failure_gives_up_at_once() {
    let refusals: [&[u8]; 4] = [
        b"Error: Missing access token",
        b"",
        b"[429 Too Many Requests",
        b"429 Too Many Requests]",
    ];
    for stderr in refusals {
        let error = given_up(next_step(Attempt::Failed { stderr: stderr.to_vec() }, 0));

        assert_eq!(SECRETS_MANAGER_FAILURE, error.error_kind());
        assert_eq!(
            format!("failed to run 'bws': {}", String::from_utf8_lossy(stderr)),
            error.message()
        );
    }
}

#[test]
fn next_step_after_unreadable_error_stream_gives_up() {
    let error = given_up(next_step(Attempt::Failed { stderr: vec![0x5b, 0xff, 0xfe] }, 0));

    assert_eq!(SECRETS_MANAGER_FAILURE, error.error_kind());
    assert!(error.message().starts_with("failed to read 'bws' error: "));
}

#[test]
fn next_step_when_program_did_not_run_gives_up() {
    let attempt = Attempt::NotRun {
        kind: "entity not found".to_string(),
        detail: "No such file or directory (os error 2)".to_string(),
    };

    let error = given_up(next_step(attempt, 0));

    assert_eq!("entity not found", error.error_kind());
    assert_eq!("No such file or directory (os error 2)", error.message());
}

#[test]
fn next_step_when_output_is_no_secret_gives_up() {
    let attempt = Attempt::Succeeded { parsed: Err("missing field `value` at line 1 column 2".to_string()) };

    let error = given_up(next_step(attempt, 0));

    assert_eq!(SERIALIZATION_FAILURE, error.error_kind());
    assert_eq!("missing field `value` at line 1 column 2", error.message());
}

#[test]
fn judge_finds_the_words_of_the_service_anywhere() {
    let texts = [
        "[429 Too Many Requests]",
        "x[429 Too Many Requests]",
        "[429 Too Many Requests]x",
        "[[429 Too Many Requests]]",
        "\u{e9}[429 Too Many Requests]",
    ];
    for text in texts {
        let judgement = judge(Attempt::Failed { stderr: text.as_bytes().to_vec() }, 4);

        assert!(matches!(judgement, Judgement::SlowDown));
    }
}

#[test]
fn judge_hands_out_value_of_secret() {
    let judgement = judge(Attempt::Succeeded { parsed: Ok(example_secret("")) }, 0);

    assert!(matches!(judgement, Judgement::Secret(value) if value.is_empty()));
}

#[test]
fn get_secrets_manager_needs_access_token() {
    let manager = get_secrets_manager(Ok("0.token".to_string()));
    let missing = get_secrets_manager(Err("environment variable not found".to_string()));

    assert!(manager.is_ok());
    assert_eq!(
        vec!["get", "secret", "id", "--access-token", "0.token"],
        manager.ok().unwrap().arguments("id")
    );
    let error = missing.err().expect("expected a failure");
    assert_eq!(SECRETS_MANAGER_FAILURE, error.error_kind());
    assert_eq!(
        "failed to retrieve secrets manager access token from environment variable: environment variable not found",
        error.message()
    );
}
