use dkdc_lm::lm::{
    resolve_builtin, resolve_model_source, Error, BUILTIN_MODELS, DEFAULT_BUILTIN, DEFAULT_PORT,
    TMUX_SESSION,
};
use dkdc_lm::shell::ShellError;

// -- resolve_builtin ----------------------------------------------------------

#[test]
fn resolve_builtin_default() {
    let args = resolve_builtin(DEFAULT_BUILTIN).unwrap();
    assert_eq!(args, vec!["-hf", "ggml-org/gemma-4-26B-A4B-it-GGUF"]);
}

#[test]
fn resolve_builtin_small() {
    let args = resolve_builtin("gemma-4-e4b-it").unwrap();
    assert_eq!(args, vec!["-hf", "ggml-org/gemma-4-E4B-it-GGUF"]);
}

#[test]
fn resolve_builtin_all_models() {
    for (name, expected_args_str) in BUILTIN_MODELS {
        let args = resolve_builtin(name).unwrap();
        let expected: Vec<String> = expected_args_str
            .split_whitespace()
            .map(String::from)
            .collect();
        assert_eq!(args, expected, "mismatch for model '{name}'");
    }
}

#[test]
fn resolve_builtin_unknown() {
    let err = resolve_builtin("nonexistent").unwrap_err();
    assert!(matches!(err, Error::UnknownModel(_)));
    let msg = err.message();
    assert!(msg.contains("nonexistent"));
    assert!(msg.contains("gemma-4-26b-a4b-it"));
}

#[test]
fn resolve_builtin_empty_string() {
    let err = resolve_builtin("").unwrap_err();
    assert!(matches!(err, Error::UnknownModel(_)));
}

#[test]
fn resolve_builtin_case_sensitive() {
    // Model names are case-sensitive — uppercase should fail
    assert!(resolve_builtin("Gemma-4-26b-a4b-it").is_err());
    assert!(resolve_builtin("GEMMA-4-26B-A4B-IT").is_err());
}

// -- constants ----------------------------------------------------------------

#[test]
fn constants() {
    assert_eq!(DEFAULT_PORT, 8080);
    assert_eq!(TMUX_SESSION, "dkdc-lm");
    assert_eq!(DEFAULT_BUILTIN, "gemma-4-26b-a4b-it");
}

#[test]
fn default_builtin_is_in_builtin_models() {
    assert!(
        BUILTIN_MODELS.iter().any(|(n, _)| *n == DEFAULT_BUILTIN),
        "DEFAULT_BUILTIN '{DEFAULT_BUILTIN}' not found in BUILTIN_MODELS"
    );
}

#[test]
fn builtin_models_have_valid_args() {
    for (name, args_str) in BUILTIN_MODELS {
        assert!(!name.is_empty(), "model name should not be empty");
        assert!(!args_str.is_empty(), "args for '{name}' should not be empty");
        let parts: Vec<&str> = args_str.split_whitespace().collect();
        assert!(
            parts.len() >= 2,
            "args for '{name}' should have at least flag + value"
        );
    }
}

// -- Error messages -----------------------------------------------------------

#[test]
fn error_display_already_running() {
    let msg = Error::AlreadyRunning.message();
    assert!(msg.contains(TMUX_SESSION));
    assert!(msg.contains("already running"));
}

#[test]
fn error_display_not_running() {
    let msg = Error::NotRunning.message();
    assert!(msg.contains(TMUX_SESSION));
}

#[test]
fn error_display_unknown_model() {
    let msg = Error::UnknownModel("bad-model".into()).message();
    assert!(msg.contains("bad-model"));
    assert!(msg.contains("available:"));
    // Should list all known models
    for (name, _) in BUILTIN_MODELS {
        assert!(msg.contains(name), "missing model '{name}' in error message");
    }
}

// -- Error source -------------------------------------------------------------

#[test]
fn error_source_non_shell_is_none() {
    assert!(Error::AlreadyRunning.source().is_none());
    assert!(Error::NotRunning.source().is_none());
    assert!(Error::UnknownModel("x".into()).source().is_none());
}

// -- beyond the original's tests ----------------------------------------------

#[test]
fn error_messages_are_exact() {
    assert_eq!(
        Error::AlreadyRunning.message(),
        "llama-server already running in tmux session 'dkdc-lm'"
    );
    assert_eq!(Error::NotRunning.message(), "no tmux session 'dkdc-lm'");
    assert_eq!(
        Error::UnknownModel("bad-model".into()).message(),
        "unknown built-in model 'bad-model'. available: gemma-4-26b-a4b-it, gemma-4-e4b-it"
    );
}

#[test]
fn shell_error_is_its_own_message_and_source() {
    let err = Error::Shell(ShellError { message: "tmux error: boom".to_string() });
    assert_eq!(err.message(), "tmux error: boom");
    assert_eq!(
        err.source(),
        Some(&ShellError { message: "tmux error: boom".to_string() })
    );
}

#[test]
fn shell_error_converts_into_error() {
    let err: Error = ShellError { message: "command not found: tmux".to_string() }.into();
    assert!(matches!(err, Error::Shell(_)));
    assert_eq!(err.message(), "command not found: tmux");
}

#[test]
fn unknown_model_message_names_the_input() {
    let err = resolve_builtin("gemma 4").unwrap_err();
    assert_eq!(
        err.message(),
        "unknown built-in model 'gemma 4'. available: gemma-4-26b-a4b-it, gemma-4-e4b-it"
    );
    assert!(resolve_builtin("gemma-4-e4b-it ").is_err());
    assert!(resolve_builtin("gemma-4-e4b").is_err());
}

#[test]
fn model_source_prefers_local_file_then_repo_then_preset() {
    assert_eq!(
        resolve_model_source(Some("/m.gguf"), Some("org/repo"), Some("gemma-4-e4b-it")).unwrap(),
        vec!["-m", "/m.gguf"]
    );
    assert_eq!(
        resolve_model_source(None, Some("org/repo"), Some("gemma-4-e4b-it")).unwrap(),
        vec!["-hf", "org/repo"]
    );
    assert_eq!(
        resolve_model_source(None, None, Some("gemma-4-e4b-it")).unwrap(),
        vec!["-hf", "ggml-org/gemma-4-E4B-it-GGUF"]
    );
    assert_eq!(
        resolve_model_source(None, None, None).unwrap(),
        vec!["-hf", "ggml-org/gemma-4-26B-A4B-it-GGUF"]
    );
    let err = resolve_model_source(None, None, Some("nope")).unwrap_err();
    assert!(matches!(err, Error::UnknownModel(ref n) if n == "nope"));
}
