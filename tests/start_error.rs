use anyhow::Context;
use lassie::StartError;

/// Lets the error travel through `anyhow`, which asks for `Display` and
/// `std::error::Error`.
#[derive(Debug)]
struct Reported(StartError);

impl std::fmt::Display for Reported {
    fn fmt(&self, f: &mut std::fmt::Formatter<'_>) -> std::fmt::Result {
        f.write_str(&self.0.message())
    }
}

impl std::error::Error for Reported {}

#[test]
fn can_be_converted_to_anyhow_error() {
    let result: Result<(), Reported> = Err(Reported(StartError::OnlyOneInstanceAllowed));
    let anyhow = result.context("lassie error");
    assert_eq!(
        format!("{:#}", anyhow.unwrap_err()),
        format!("lassie error: {}", StartError::OnlyOneInstanceAllowed.message())
    );
}

#[test]
fn fixed_messages() {
    assert_eq!(
        StartError::MutexPoisoned.message(),
        "failed to start daemon: the global mutex was poisoned"
    );
    assert_eq!(
        StartError::OnlyOneInstanceAllowed.message(),
        "failed to start daemon: cannot create more than one instance"
    );
}

#[test]
fn engine_message_is_not_altered() {
    let text = "cannot start the HTTP server: listen tcp 127.0.0.1:1: bind: permission denied";
    assert_eq!(
        StartError::Lassie(text.to_string()).message(),
        format!("failed to start daemon: {text}")
    );
}

#[test]
fn quoted_values_are_escaped() {
    assert_eq!(
        StartError::AccessTokenContainsNullByte("a\"b\0".to_string()).message(),
        "failed to start daemon: null bytes are not allowed in the access token (value: \"a\\\"b\\0\")"
    );
}
