use dkdc_lm::ai::{
    resolve_builtin, resolve_model_source, Error, DEFAULT_BUILTIN, DEFAULT_PORT, TMUX_SESSION,
};

#[test]
fn lib_resolve_builtin_default() {
    let args = resolve_builtin(DEFAULT_BUILTIN).unwrap();
    assert_eq!(args, vec!["-hf", "ggml-org/gemma-4-26B-A4B-it-GGUF"]);
}

#[test]
fn lib_resolve_builtin_small() {
    let args = resolve_builtin("gemma-4-e4b-it").unwrap();
    assert_eq!(args, vec!["-hf", "ggml-org/gemma-4-E4B-it-GGUF"]);
}

#[test]
fn lib_resolve_builtin_unknown() {
    assert!(resolve_builtin("nonexistent").is_err());
}

#[test]
fn lib_constants() {
    assert_eq!(DEFAULT_PORT, 8080);
    assert_eq!(TMUX_SESSION, "dkdc-ai");
    assert_eq!(DEFAULT_BUILTIN, "gemma-4-26b-a4b-it");
}

// -- beyond the original's tests ----------------------------------------------

#[test]
fn ai_unknown_model_message() {
    let err = resolve_builtin("nonexistent").unwrap_err();
    assert!(matches!(err, Error::Message(_)));
    assert_eq!(
        err.message(),
        "unknown built-in model 'nonexistent'. available: gemma-4-26b-a4b-it, gemma-4-e4b-it"
    );
}

#[test]
fn ai_model_source() {
    let none: Option<String> = None;
    assert_eq!(
        resolve_model_source(&Some("/x.gguf".to_string()), &none, &none).unwrap(),
        vec!["-m", "/x.gguf"]
    );
    assert_eq!(
        resolve_model_source(&none, &Some("a/b".to_string()), &none).unwrap(),
        vec!["-hf", "a/b"]
    );
    assert_eq!(
        resolve_model_source(&none, &none, &none).unwrap(),
        vec!["-hf", "ggml-org/gemma-4-26B-A4B-it-GGUF"]
    );
    assert!(resolve_model_source(&none, &none, &Some("zzz".to_string())).is_err());
}
