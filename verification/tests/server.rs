use dkdc_lm::cli::{attach_hint, start_banner, status_lines};
use dkdc_lm::server::{
    find_preset, health_url, http_responding, launch_command_line, status_report,
    unknown_model_message, BUILTIN_MODELS, SERVER_PROGRAM,
};

#[test]
fn presets_are_found_by_exact_name() {
    assert_eq!(find_preset("gemma-4-e4b-it"), Some("-hf ggml-org/gemma-4-E4B-it-GGUF"));
    assert_eq!(find_preset("gemma-4-26b-a4b-it"), Some(BUILTIN_MODELS[0].1));
    assert_eq!(find_preset("GEMMA-4-E4B-IT"), None);
    assert_eq!(find_preset(""), None);
}

#[test]
fn launch_command_for_a_preset() {
    let args = vec!["-hf".to_string(), "ggml-org/gemma-4-E4B-it-GGUF".to_string()];
    let cmd = launch_command_line(&args, 8080, -1, 4096);
    assert_eq!(cmd, "llama-server -hf ggml-org/gemma-4-E4B-it-GGUF --port 8080 -ngl -1 -c 4096");
    let words: Vec<&str> = cmd.split_whitespace().collect();
    assert_eq!(
        words,
        vec![SERVER_PROGRAM, "-hf", "ggml-org/gemma-4-E4B-it-GGUF", "--port", "8080", "-ngl", "-1", "-c", "4096"]
    );
}

#[test]
fn health_check() {
    assert_eq!(health_url(8080), "http://localhost:8080/health");
    assert_eq!(health_url(0), "http://localhost:0/health");
    assert!(http_responding(Some(200)));
    assert!(http_responding(Some(204)));
    assert!(http_responding(Some(299)));
    assert!(!http_responding(Some(300)));
    assert!(!http_responding(Some(199)));
    assert!(!http_responding(Some(503)));
    assert!(!http_responding(Some(42)));
    assert!(!http_responding(None));
    assert_eq!(status_report(true, Some(200)), (true, true));
    assert_eq!(status_report(false, Some(500)), (false, false));
    assert_eq!(status_report(true, None), (true, false));
}

#[test]
fn unknown_model_lists_presets() {
    assert_eq!(
        unknown_model_message("x"),
        "unknown built-in model 'x'. available: gemma-4-26b-a4b-it, gemma-4-e4b-it"
    );
}

#[test]
fn cli_texts() {
    assert_eq!(
        start_banner("lm", "dkdc-lm"),
        vec![
            "llama-server started in tmux session 'dkdc-lm'",
            "",
            "Commands:",
            "  lm attach    # View server output",
            "  lm logs      # Show recent logs",
            "  lm stop      # Stop server",
        ]
    );
    assert_eq!(
        status_lines("lm", "dkdc-lm", 8080, true, true),
        vec!["llama-server is running on port 8080", "Tmux session: dkdc-lm"]
    );
    assert_eq!(
        status_lines("lm", "dkdc-lm", 9000, false, true),
        vec!["llama-server is running on port 9000"]
    );
    assert_eq!(
        status_lines("dkdc-ai", "dkdc-ai", 8080, true, false),
        vec!["Tmux session exists but llama-server may not be responding", "Use: dkdc-ai logs"]
    );
    assert_eq!(
        status_lines("lm", "dkdc-lm", 8080, false, false),
        vec!["llama-server is not running"]
    );
    assert_eq!(
        attach_hint("lm", "dkdc-lm"),
        vec![
            "llama-server not running (no tmux session 'dkdc-lm')",
            "Use: lm start --builtin gemma-4-26b-a4b-it",
        ]
    );
}
