//! The secrets manager of Bitwarden, asked through its command line program.
//! What is decided here is when an answer of the program is the secret, when
//! it is worth another try, and when it is a failure; running the program and
//! waiting between tries is the caller's part.

use vstd::prelude::*;
use vstd::utf8::decode_utf8;
use vstd::utf8::valid_utf8;
use rand::Rng;
use crate::error::Error;
use crate::error_kind::SECRETS_MANAGER_FAILURE;
use crate::error_kind::SERIALIZATION_FAILURE;
use crate::text::contains_text;
use crate::text::occurs_in;
use crate::text::text_from_utf8;

verus! {

/// How often a refused request is tried again at most.
pub const MAX_RETRIES: usize = 5;

pub const MIN_SLEEP_BETWEEN_TRIES_IN_MILLISECONDS: u64 = 100;

pub const MAX_SLEEP_BETWEEN_TRIES_IN_MILLISECONDS: u64 = 1000;

/// The name of the command line program.
pub const PROGRAM: &'static str = "bws";

/// The words by which the service asks to slow down.
pub const TOO_MANY_REQUESTS: &'static str = "[429 Too Many Requests]";

pub const RUN_FAILED: &'static str = "failed to run 'bws': ";

pub const ERROR_UNREADABLE: &'static str = "failed to read 'bws' error: ";

pub const ACCESS_TOKEN_MISSING: &'static str =
    "failed to retrieve secrets manager access token from environment variable: ";

/// A secret as the program prints it.
#[derive(Debug, Clone)]
pub struct BitwardenSecret {
    pub id: String,
    pub organization_id: String,
    pub project_id: String,
    pub key: String,
    pub value: String,
    pub creation_date: String,
    pub revision_date: String,
}

/// What came of running the program once.
#[derive(Debug)]
pub enum Attempt {
    /// The program could not be run: the kind of the I/O error and its words.
    NotRun { kind: String, detail: String },
    /// The program ended well: the secret read from its output, or the words
    /// of the error where the output is no secret.
    Succeeded { parsed: Result<BitwardenSecret, String> },
    /// The program ended badly: what it wrote to its error stream.
    Failed { stderr: Vec<u8> },
}

/// What an attempt amounts to.
#[derive(Debug, Clone)]
pub enum Judgement {
    /// The value of the secret.
    Secret(String),
    /// The service asked to slow down, and another try is in order.
    SlowDown,
    /// The secret cannot be had.
    Failure(Error),
}

/// What to do after an attempt.
#[derive(Debug, Clone)]
pub enum Step {
    /// Hand out the value of the secret.
    Done(String),
    /// Wait so many milliseconds, then run the program again, as the try
    /// after `count` earlier ones.
    Retry { delay_in_milliseconds: u64, count: usize },
    /// Give up with the failure.
    Fail(Error),
}

/// Whether the error stream of a failed run asks for another try, after
/// `count` earlier ones: it is text, it holds the words of the service for
/// too many requests, and fewer than [`MAX_RETRIES`] tries were made.
pub open spec fn asks_to_slow_down(stderr: Seq<u8>, count: usize) -> bool {
    valid_utf8(stderr) && occurs_in(decode_utf8(stderr), TOO_MANY_REQUESTS@) && count < MAX_RETRIES
}

/// Whether `judgement` is what `attempt` amounts to after `count` earlier
/// tries.
pub open spec fn judges(attempt: Attempt, count: usize, judgement: Judgement) -> bool {
    match attempt {
        Attempt::NotRun { kind, detail } => judgement matches Judgement::Failure(error)
            && error@.kind == kind@ && error@.message == detail@,
        Attempt::Succeeded { parsed: Ok(secret) } => judgement == Judgement::Secret(secret.value),
        Attempt::Succeeded { parsed: Err(detail) } => judgement matches Judgement::Failure(error)
            && error@.kind == SERIALIZATION_FAILURE@ && error@.message == detail@,
        Attempt::Failed { stderr } => if asks_to_slow_down(stderr@, count) {
            judgement == Judgement::SlowDown
        } else if valid_utf8(stderr@) {
            judgement matches Judgement::Failure(error) && error@.kind == SECRETS_MANAGER_FAILURE@
                && error@.message == RUN_FAILED@ + decode_utf8(stderr@)
        } else {
            judgement matches Judgement::Failure(error) && error@.kind == SECRETS_MANAGER_FAILURE@
                && ERROR_UNREADABLE@.is_prefix_of(error@.message)
        },
    }
}

/// `rand::Rng::gen_range` on `rand::thread_rng()`: a number drawn from `low`
/// up to, and without, `high`. Which one is left to chance.
#[verifier::external_body]
pub(crate) fn random_between(low: u64, high: u64) -> (drawn: u64)
    requires
        low < high,
    ensures
        low <= drawn < high,
{
    rand::thread_rng().gen_range(low..high)
}

/// Reads secrets with the access token it was given.
pub struct BitwardenSecretsManager {
    access_token: String,
}

impl BitwardenSecretsManager {
    /// The access token that the manager shows to the service.
    pub closed spec fn access_token(&self) -> Seq<char> {
        self.access_token@
    }

    /// The manager that shows `access_token` to the service.
    pub fn new(access_token: String) -> (manager: BitwardenSecretsManager)
        ensures
            manager.access_token() == access_token@,
    {
        BitwardenSecretsManager { access_token }
    }

    /// The arguments with which the program reads the secret `secret_id`.
    pub fn arguments(&self, secret_id: &str) -> (arguments: Vec<String>)
        ensures
            arguments.deep_view() == seq![
                "get"@,
                "secret"@,
                secret_id@,
                "--access-token"@,
                self.access_token(),
            ],
    {
        let mut arguments: Vec<String> = Vec::new();
        arguments.push("get".to_owned());
        arguments.push("secret".to_owned());
        arguments.push(secret_id.to_owned());
        arguments.push("--access-token".to_owned());
        arguments.push(self.access_token.clone());
        assert(arguments.deep_view() =~= seq![
            "get"@,
            "secret"@,
            secret_id@,
            "--access-token"@,
            self.access_token(),
        ]);
        arguments
    }
}

/// What an attempt amounts to after `count` earlier tries.
pub fn judge(attempt: Attempt, count: usize) -> (judgement: Judgement)
    ensures
        judges(attempt, count, judgement),
{
    match attempt {
        Attempt::NotRun { kind, detail } => Judgement::Failure(
            Error::new(kind.as_str(), detail.as_str()),
        ),
        Attempt::Succeeded { parsed: Ok(secret) } => Judgement::Secret(secret.value),
        Attempt::Succeeded { parsed: Err(detail) } => Judgement::Failure(
            Error::new(SERIALIZATION_FAILURE, detail.as_str()),
        ),
        Attempt::Failed { stderr } => match text_from_utf8(stderr) {
            Ok(message) => {
                if contains_text(message.as_str(), TOO_MANY_REQUESTS) && count < MAX_RETRIES {
                    Judgement::SlowDown
                } else {
                    Judgement::Failure(
                        Error::with_detail(SECRETS_MANAGER_FAILURE, RUN_FAILED, message.as_str()),
                    )
                }
            },
            Err(detail) => {
                let error = Error::with_detail(
                    SECRETS_MANAGER_FAILURE,
                    ERROR_UNREADABLE,
                    detail.as_str(),
                );
                assert(ERROR_UNREADABLE@.is_prefix_of(error@.message));
                Judgement::Failure(error)
            },
        },
    }
}

/// What to do after an attempt that followed `count` earlier tries: hand out
/// the secret, give up, or, where the service asked to slow down, wait for a
/// time drawn by chance and try again. No more than [`MAX_RETRIES`] tries
/// follow the first.
pub fn next_step(attempt: Attempt, count: usize) -> (step: Step)
    ensures
        match step {
            Step::Done(value) => judges(attempt, count, Judgement::Secret(value)),
            Step::Retry { delay_in_milliseconds, count: next } => judges(
                attempt,
                count,
                Judgement::SlowDown,
            ) && next == count + 1 && next <= MAX_RETRIES
                && MIN_SLEEP_BETWEEN_TRIES_IN_MILLISECONDS <= delay_in_milliseconds
                < MAX_SLEEP_BETWEEN_TRIES_IN_MILLISECONDS,
            Step::Fail(error) => judges(attempt, count, Judgement::Failure(error)),
        },
{
    match judge(attempt, count) {
        Judgement::Secret(value) => Step::Done(value),
        Judgement::SlowDown => Step::Retry {
            delay_in_milliseconds: random_between(
                MIN_SLEEP_BETWEEN_TRIES_IN_MILLISECONDS,
                MAX_SLEEP_BETWEEN_TRIES_IN_MILLISECONDS,
            ),
            count: count + 1,
        },
        Judgement::Failure(error) => Step::Fail(error),
    }
}

/// The manager for the access token that the environment holds, or the
/// failure `secrets_manager_failure` where it holds none.
pub fn get_secrets_manager(access_token: Result<String, String>) -> (manager: Result<
    BitwardenSecretsManager,
    Error,
>)
    ensures
        match access_token {
            Ok(token) => manager matches Ok(made) && made.access_token() == token@,
            Err(detail) => manager matches Err(error) && error@.kind == SECRETS_MANAGER_FAILURE@
                && error@.message == ACCESS_TOKEN_MISSING@ + detail@,
        },
{
    match access_token {
        Ok(token) => Ok(BitwardenSecretsManager::new(token)),
        Err(detail) => Err(
            Error::with_detail(SECRETS_MANAGER_FAILURE, ACCESS_TOKEN_MISSING, detail.as_str()),
        ),
    }
}

} // verus!
