//! What the command-line front ends print: the help after a start, the
//! status report and the hint when there is no session to attach to.

use vstd::prelude::*;
use crate::server::DEFAULT_BUILTIN;
use crate::text::{decimal, texts, unsigned_text};

verus! {

/// `a`, `b` and `c`, one after the other.
fn concat(a: &str, b: &str, c: &str) -> (s: String)
    ensures
        s@ == a@ + b@ + c@,
{
    let mut s = a.to_owned();
    s.append(b);
    s.append(c);
    s
}

/// The lines printed once llama-server has been started in `session`, for
/// the program named `program`.
pub open spec fn start_banner_text(program: Seq<char>, session: Seq<char>) -> Seq<Seq<char>> {
    seq![
        "llama-server started in tmux session '"@ + session + "'"@,
        Seq::<char>::empty(),
        "Commands:"@,
        "  "@ + program + " attach    # View server output"@,
        "  "@ + program + " logs      # Show recent logs"@,
        "  "@ + program + " stop      # Stop server"@,
    ]
}

/// Builds the lines printed once llama-server has been started.
pub fn start_banner(program: &str, session: &str) -> (lines: Vec<String>)
    ensures
        texts(lines@) == start_banner_text(program@, session@),
{
    let mut lines: Vec<String> = Vec::new();
    lines.push(concat("llama-server started in tmux session '", session, "'"));
    lines.push(String::new());
    lines.push("Commands:".to_owned());
    lines.push(concat("  ", program, " attach    # View server output"));
    lines.push(concat("  ", program, " logs      # Show recent logs"));
    lines.push(concat("  ", program, " stop      # Stop server"));
    assert(texts(lines@) =~= start_banner_text(program@, session@));
    lines
}

/// The lines of a status report: whether the server answers on `port`, and
/// whether its tmux session exists.
pub open spec fn status_text(
    program: Seq<char>,
    session: Seq<char>,
    port: u16,
    tmux_running: bool,
    http_responding: bool,
) -> Seq<Seq<char>> {
    if http_responding {
        let running = seq!["llama-server is running on port "@ + decimal(port as nat)];
        if tmux_running {
            running.push("Tmux session: "@ + session)
        } else {
            running
        }
    } else if tmux_running {
        seq![
            "Tmux session exists but llama-server may not be responding"@,
            "Use: "@ + program + " logs"@,
        ]
    } else {
        seq!["llama-server is not running"@]
    }
}

/// Builds the lines of a status report.
pub fn status_lines(
    program: &str,
    session: &str,
    port: u16,
    tmux_running: bool,
    http_responding: bool,
) -> (lines: Vec<String>)
    ensures
        texts(lines@) == status_text(program@, session@, port, tmux_running, http_responding),
{
    let mut lines: Vec<String> = Vec::new();
    if http_responding {
        let digits = unsigned_text(port as u64);
        lines.push(concat("llama-server is running on port ", digits.as_str(), ""));
        if tmux_running {
            lines.push(concat("Tmux session: ", session, ""));
        }
    } else if tmux_running {
        lines.push("Tmux session exists but llama-server may not be responding".to_owned());
        lines.push(concat("Use: ", program, " logs"));
    } else {
        lines.push("llama-server is not running".to_owned());
    }
    proof {
        reveal_strlit("");
    }
    assert(texts(lines@) =~= status_text(program@, session@, port, tmux_running, http_responding));
    lines
}

/// The lines printed when there is no session to attach to.
pub open spec fn attach_hint_text(program: Seq<char>, session: Seq<char>) -> Seq<Seq<char>> {
    seq![
        "llama-server not running (no tmux session '"@ + session + "')"@,
        "Use: "@ + program + " start --builtin "@ + DEFAULT_BUILTIN@,
    ]
}

/// Builds the lines printed when there is no session to attach to.
pub fn attach_hint(program: &str, session: &str) -> (lines: Vec<String>)
    ensures
        texts(lines@) == attach_hint_text(program@, session@),
{
    let mut lines: Vec<String> = Vec::new();
    lines.push(concat("llama-server not running (no tmux session '", session, "')"));
    lines.push(concat("Use: ", program, " start --builtin "));
    lines[1].append(DEFAULT_BUILTIN);
    assert(texts(lines@) =~= attach_hint_text(program@, session@));
    lines
}

} // verus!
