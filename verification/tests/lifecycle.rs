use dkdc_lm::ai;
use dkdc_lm::lm;
use dkdc_lm::shell::{ShellAction, ShellError, ShellEvent, Step};

fn shell_error(text: &str) -> ShellError {
    ShellError { message: text.to_string() }
}

fn performs(step: Step<(), lm::Error>) -> ShellAction {
    match step {
        Step::Perform(action) => action,
        Step::Finish(r) => panic!("finished early: {r:?}"),
    }
}

#[test]
fn lm_start_runs_the_launch_command_in_a_new_session() {
    let args = vec!["-hf".to_string(), "org/repo".to_string()];
    assert_eq!(
        performs(lm::start_step(&args, 8080, -1, 4096, ShellEvent::Begun)),
        ShellAction::RequireProgram("llama-server".to_string())
    );
    assert_eq!(
        performs(lm::start_step(&args, 8080, -1, 4096, ShellEvent::ProgramChecked(Ok(())))),
        ShellAction::CheckSession("dkdc-lm".to_string())
    );
    assert_eq!(
        performs(lm::start_step(&args, 8080, -1, 4096, ShellEvent::SessionChecked(false))),
        ShellAction::CreateSession(
            "dkdc-lm".to_string(),
            "llama-server -hf org/repo --port 8080 -ngl -1 -c 4096".to_string()
        )
    );
    assert!(matches!(
        lm::start_step(&args, 8080, -1, 4096, ShellEvent::Completed(Ok(()))),
        Step::Finish(Ok(()))
    ));
}

#[test]
fn lm_start_refuses_a_running_session() {
    let args: Vec<String> = Vec::new();
    assert!(matches!(
        lm::start_step(&args, 1, 2, 3, ShellEvent::SessionChecked(true)),
        Step::Finish(Err(lm::Error::AlreadyRunning))
    ));
}

#[test]
fn lm_start_reports_a_missing_program() {
    let args: Vec<String> = Vec::new();
    match lm::start_step(
        &args,
        1,
        2,
        3,
        ShellEvent::ProgramChecked(Err(shell_error("command not found: llama-server"))),
    ) {
        Step::Finish(Err(lm::Error::Shell(e))) => {
            assert_eq!(e.message, "command not found: llama-server")
        }
        other => panic!("unexpected {other:?}"),
    }
    match lm::start_step(&args, 1, 2, 3, ShellEvent::Completed(Err(shell_error("tmux error: x")))) {
        Step::Finish(Err(lm::Error::Shell(e))) => assert_eq!(e.message, "tmux error: x"),
        other => panic!("unexpected {other:?}"),
    }
}

#[test]
fn lm_start_command_without_model_args() {
    let args: Vec<String> = Vec::new();
    assert_eq!(
        performs(lm::start_step(&args, 65535, i32::MIN, u32::MAX, ShellEvent::SessionChecked(false))),
        ShellAction::CreateSession(
            "dkdc-lm".to_string(),
            "llama-server --port 65535 -ngl -2147483648 -c 4294967295".to_string()
        )
    );
}

#[test]
fn lm_stop_is_a_no_op_without_a_session() {
    assert_eq!(
        performs(lm::stop_step(ShellEvent::Begun)),
        ShellAction::CheckSession("dkdc-lm".to_string())
    );
    assert!(matches!(lm::stop_step(ShellEvent::SessionChecked(false)), Step::Finish(Ok(()))));
    assert_eq!(
        performs(lm::stop_step(ShellEvent::SessionChecked(true))),
        ShellAction::KillSession("dkdc-lm".to_string())
    );
    assert!(matches!(lm::stop_step(ShellEvent::Completed(Ok(()))), Step::Finish(Ok(()))));
    assert!(matches!(
        lm::stop_step(ShellEvent::Completed(Err(shell_error("e")))),
        Step::Finish(Err(lm::Error::Shell(_)))
    ));
}

#[test]
fn lm_attach_needs_a_session() {
    assert!(matches!(
        lm::attach_step(ShellEvent::SessionChecked(false)),
        Step::Finish(Err(lm::Error::NotRunning))
    ));
    assert_eq!(
        performs(lm::attach_step(ShellEvent::SessionChecked(true))),
        ShellAction::AttachSession("dkdc-lm".to_string())
    );
    assert!(matches!(lm::attach_step(ShellEvent::Completed(Ok(()))), Step::Finish(Ok(()))));
}

#[test]
fn lm_logs_capture_the_pane() {
    assert!(matches!(
        lm::logs_step(Some(50), ShellEvent::SessionChecked(false)),
        Step::Finish(Err(lm::Error::NotRunning))
    ));
    match lm::logs_step(Some(50), ShellEvent::SessionChecked(true)) {
        Step::Perform(action) => {
            assert_eq!(action, ShellAction::CapturePane("dkdc-lm".to_string(), Some(50)))
        }
        other => panic!("unexpected {other:?}"),
    }
    match lm::logs_step(None, ShellEvent::Captured(Ok("line\n".to_string()))) {
        Step::Finish(Ok(text)) => assert_eq!(text, "line\n"),
        other => panic!("unexpected {other:?}"),
    }
    assert!(matches!(
        lm::logs_step(None, ShellEvent::Captured(Err(shell_error("x")))),
        Step::Finish(Err(lm::Error::Shell(_)))
    ));
}

#[test]
fn ai_start_and_logs_refuse_with_messages() {
    let args = ["-m", "/m.gguf"];
    match ai::start_step(&args, 9000, 0, 512, ShellEvent::SessionChecked(false)) {
        Step::Perform(action) => assert_eq!(
            action,
            ShellAction::CreateSession(
                "dkdc-ai".to_string(),
                "llama-server -m /m.gguf --port 9000 -ngl 0 -c 512".to_string()
            )
        ),
        other => panic!("unexpected {other:?}"),
    }
    match ai::start_step(&args, 9000, 0, 512, ShellEvent::SessionChecked(true)) {
        Step::Finish(Err(e)) => assert_eq!(
            e.message(),
            "llama-server already running in tmux session 'dkdc-ai'"
        ),
        other => panic!("unexpected {other:?}"),
    }
    match ai::logs_step(None, ShellEvent::SessionChecked(false)) {
        Step::Finish(Err(e)) => assert_eq!(e.message(), "no tmux session 'dkdc-ai'"),
        other => panic!("unexpected {other:?}"),
    }
    assert!(matches!(ai::stop_step(ShellEvent::SessionChecked(false)), Step::Finish(Ok(()))));
    match ai::stop_step(ShellEvent::SessionChecked(true)) {
        Step::Perform(action) => assert_eq!(action, ShellAction::KillSession("dkdc-ai".to_string())),
        other => panic!("unexpected {other:?}"),
    }
}
