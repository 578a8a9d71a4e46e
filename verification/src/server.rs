//! What the library knows of llama-server: the built-in model presets, the
//! command line that starts it, and its health endpoint.

use vstd::prelude::*;
use crate::text::{
    contains_text, decimal, is_white_space, is_word, join, join_texts, lemma_decimal_is_word, lemma_join_prepend,
    lemma_signed_decimal_is_word, lemma_split_of_joined, lemma_words_are_words,
    lemma_words_of_word_then_text, same_text, signed_decimal, signed_text, texts, unsigned_text,
    words,
};

verus! {

/// The program that serves the model.
pub const SERVER_PROGRAM: &'static str = "llama-server";

/// Default built-in model preset.
pub const DEFAULT_BUILTIN: &'static str = "gemma-4-26b-a4b-it";

/// Known built-in model presets: a name, then the llama-server arguments
/// that select the model.
pub const BUILTIN_MODELS: [(&'static str, &'static str); 2] = [
    ("gemma-4-26b-a4b-it", "-hf ggml-org/gemma-4-26B-A4B-it-GGUF"),
    ("gemma-4-e4b-it", "-hf ggml-org/gemma-4-E4B-it-GGUF"),
];

/// The argument string of the first preset in `table` named `name`.
pub open spec fn lookup(table: Seq<(&'static str, &'static str)>, name: Seq<char>) -> Option<
    Seq<char>,
>
    decreases table.len(),
{
    if table.len() == 0 {
        None
    } else if table[0].0@ == name {
        Some(table[0].1@)
    } else {
        lookup(table.drop_first(), name)
    }
}

/// The argument string of the built-in preset named `name`, if any.
pub open spec fn preset_args(name: Seq<char>) -> Option<Seq<char>> {
    lookup(BUILTIN_MODELS@, name)
}

/// Finds the argument string of the built-in preset named `name`.
pub fn find_preset(name: &str) -> (found: Option<&'static str>)
    ensures
        match found {
            Some(args) => preset_args(name@) == Some(args@),
            None => preset_args(name@) is None,
        },
{
    let mut i: usize = 0;
    assert(BUILTIN_MODELS@.skip(0) =~= BUILTIN_MODELS@);
    while i < 2
        invariant
            i <= 2,
            preset_args(name@) == lookup(BUILTIN_MODELS@.skip(i as int), name@),
        decreases 2 - i,
    {
        let (preset, args) = BUILTIN_MODELS[i];
        assert(BUILTIN_MODELS@.skip(i as int).drop_first() =~= BUILTIN_MODELS@.skip(i + 1));
        if same_text(preset, name) {
            return Some(args);
        }
        i = i + 1;
    }
    None
}


/// The names of the built-in presets, in table order.
pub open spec fn builtin_names() -> Seq<Seq<char>> {
    BUILTIN_MODELS@.map_values(|p: (&'static str, &'static str)| p.0@)
}

/// Why a preset name was refused, with the names that would be accepted.
pub open spec fn unknown_model_text(name: Seq<char>) -> Seq<char> {
    "unknown built-in model '"@ + name + "'. available: "@ + join(builtin_names(), ", "@)
}

/// The refusal for a session that is already there.
pub open spec fn already_running_text(session: Seq<char>) -> Seq<char> {
    "llama-server already running in tmux session '"@ + session + "'"@
}

/// The refusal for a session that is not there.
pub open spec fn no_session_text(session: Seq<char>) -> Seq<char> {
    "no tmux session '"@ + session + "'"@
}

/// Says that `name` names no built-in preset, and lists those that exist.
pub fn unknown_model_message(name: &str) -> (m: String)
    ensures
        m@ == unknown_model_text(name@),
{
    let mut names: Vec<String> = Vec::new();
    let mut i: usize = 0;
    while i < 2
        invariant
            i <= 2,
            texts(names@) == builtin_names().take(i as int),
        decreases 2 - i,
    {
        let ghost before = names@;
        names.push(BUILTIN_MODELS[i].0.to_owned());
        assert(texts(names@) =~= texts(before).push(BUILTIN_MODELS@[i as int].0@));
        assert(builtin_names().take(i + 1) =~= builtin_names().take(i as int).push(
            BUILTIN_MODELS@[i as int].0@,
        ));
        i = i + 1;
    }
    assert(builtin_names().take(2) =~= builtin_names());
    let mut m = "unknown built-in model '".to_owned();
    m.append(name);
    m.append("'. available: ");
    let listed = join_texts(&names, ", ");
    m.append(listed.as_str());
    m
}

/// Says that llama-server already runs in `session`.
pub fn already_running_message(session: &str) -> (m: String)
    ensures
        m@ == already_running_text(session@),
{
    let mut m = "llama-server already running in tmux session '".to_owned();
    m.append(session);
    m.append("'");
    m
}

/// Says that there is no tmux session named `session`.
pub fn no_session_message(session: &str) -> (m: String)
    ensures
        m@ == no_session_text(session@),
{
    let mut m = "no tmux session '".to_owned();
    m.append(session);
    m.append("'");
    m
}

/// The arguments handed to llama-server: the model's, then the port, the
/// number of GPU layers and the context size.
pub open spec fn server_args(
    model_args: Seq<Seq<char>>,
    port: u16,
    gpu_layers: i32,
    ctx_size: u32,
) -> Seq<Seq<char>> {
    model_args + seq![
        "--port"@,
        decimal(port as nat),
        "-ngl"@,
        signed_decimal(gpu_layers as int),
        "-c"@,
        decimal(ctx_size as nat),
    ]
}

/// The shell command that starts llama-server: the program, a space, and
/// its arguments joined with spaces.
pub open spec fn launch_command(
    model_args: Seq<Seq<char>>,
    port: u16,
    gpu_layers: i32,
    ctx_size: u32,
) -> Seq<char> {
    SERVER_PROGRAM@ + seq![' '] + join(server_args(model_args, port, gpu_layers, ctx_size), seq![' '])
}

/// Builds the shell command that starts llama-server.
pub fn launch_command_line(model_args: &[String], port: u16, gpu_layers: i32, ctx_size: u32) -> (cmd:
    String)
    ensures
        cmd@ == launch_command(texts(model_args@), port, gpu_layers, ctx_size),
{
    let mut parts: Vec<String> = Vec::new();
    let n = model_args.len();
    let mut i: usize = 0;
    while i < n
        invariant
            n == model_args@.len(),
            i <= n,
            texts(parts@) == texts(model_args@).take(i as int),
        decreases n - i,
    {
        let ghost before = parts@;
        parts.push(model_args[i].clone());
        assert(texts(parts@) =~= texts(before).push(model_args@[i as int]@));
        assert(texts(model_args@).take(i + 1) =~= texts(model_args@).take(i as int).push(
            model_args@[i as int]@,
        ));
        i = i + 1;
    }
    assert(texts(model_args@).take(n as int) =~= texts(model_args@));
    let ghost given = parts@;
    parts.push("--port".to_owned());
    parts.push(unsigned_text(port as u64));
    parts.push("-ngl".to_owned());
    parts.push(signed_text(gpu_layers as i64));
    parts.push("-c".to_owned());
    parts.push(unsigned_text(ctx_size as u64));
    assert(texts(parts@) =~= server_args(texts(model_args@), port, gpu_layers, ctx_size));
    let mut cmd = SERVER_PROGRAM.to_owned();
    cmd.append(" ");
    let joined = join_texts(&parts, " ");
    cmd.append(joined.as_str());
    proof {
        reveal_strlit(" ");
        assert(" "@ =~= seq![' ']);
    }
    cmd
}

/// The URL of llama-server's health endpoint on `port`.
pub open spec fn health_url_text(port: u16) -> Seq<char> {
    "http://localhost:"@ + decimal(port as nat) + "/health"@
}

/// Builds the URL of llama-server's health endpoint on `port`.
pub fn health_url(port: u16) -> (url: String)
    ensures
        url@ == health_url_text(port),
{
    let mut url = "http://localhost:".to_owned();
    let digits = unsigned_text(port as u64);
    url.append(digits.as_str());
    url.append("/health");
    url
}

/// Whether an HTTP status code counts as success, as `reqwest::StatusCode`
/// judges it: `StatusCode::from_u16` accepts the codes 100 through 999, and
/// `StatusCode::is_success` holds of the codes 200 through 299.
#[verifier::external_body]
fn status_code_success(code: u16) -> (success: Option<bool>)
    ensures
        success is Some <==> 100 <= code <= 999,
        success matches Some(b) ==> (b <==> 200 <= code <= 299),
{
    match reqwest::StatusCode::from_u16(code) {
        Ok(status) => Some(status.is_success()),
        Err(_) => None,
    }
}

/// Whether the health endpoint answered with success, given the status code
/// of its reply (`None` where the request failed).
pub fn http_responding(reply: Option<u16>) -> (ok: bool)
    ensures
        ok == (reply matches Some(code) && 200 <= code <= 299),
{
    match reply {
        Some(code) => match status_code_success(code) {
            Some(success) => success,
            None => false,
        },
        None => false,
    }
}

/// The pair that a status check reports: whether the tmux session exists,
/// and whether the health endpoint answered with success.
pub fn status_report(tmux_running: bool, reply: Option<u16>) -> (report: (bool, bool))
    ensures
        report == (tmux_running, reply matches Some(code) && 200 <= code <= 299),
{
    (tmux_running, http_responding(reply))
}


/// The default preset is a built-in one: the first in the table.
pub proof fn lemma_default_builtin_is_preset()
    ensures
        preset_args(DEFAULT_BUILTIN@) == Some(BUILTIN_MODELS@[0].1@),
{
}

/// Every built-in preset has a non-empty name that selects it, and its
/// arguments split into at least a flag, `-hf`, and a value.
pub proof fn lemma_presets_are_flag_and_value()
    ensures
        forall|i: int|
            0 <= i < BUILTIN_MODELS@.len() ==> {
                let (name, args) = #[trigger] BUILTIN_MODELS@[i];
                &&& name@.len() > 0
                &&& preset_args(name@) == Some(args@)
                &&& words(args@).len() >= 2
                &&& words(args@)[0] == "-hf"@
            },
{
    let (name0, args0) = BUILTIN_MODELS@[0];
    let (name1, args1) = BUILTIN_MODELS@[1];
    reveal_strlit("gemma-4-26b-a4b-it");
    reveal_strlit("gemma-4-e4b-it");
    reveal_strlit("-hf ggml-org/gemma-4-26B-A4B-it-GGUF");
    reveal_strlit("-hf ggml-org/gemma-4-E4B-it-GGUF");
    reveal_strlit("-hf");
    let flag = "-hf"@;
    assert(flag =~= seq!['-', 'h', 'f']);
    assert forall|k: int| 0 <= k < flag.len() implies !is_white_space(#[trigger] flag[k]) by {}
    assert(is_word(flag));
    assert(name0@.len() != name1@.len());
    assert(BUILTIN_MODELS@.drop_first()[0] == BUILTIN_MODELS@[1]);
    assert(args0@ =~= flag + seq![' '] + args0@.skip(4));
    assert(args1@ =~= flag + seq![' '] + args1@.skip(4));
    lemma_words_of_word_then_text(flag, args0@.skip(4));
    lemma_words_of_word_then_text(flag, args1@.skip(4));
    assert(preset_args(name0@) == Some(args0@));
    assert(lookup(BUILTIN_MODELS@.drop_first(), name1@) == Some(args1@));
    assert(preset_args(name1@) == Some(args1@));
    assert forall|i: int| 0 <= i < BUILTIN_MODELS@.len() implies {
        let (name, args) = #[trigger] BUILTIN_MODELS@[i];
        &&& name@.len() > 0
        &&& preset_args(name@) == Some(args@)
        &&& words(args@).len() >= 2
        &&& words(args@)[0] == "-hf"@
    } by {
        if i == 0 {
        } else {
            assert(i == 1);
        }
    }
}

/// The launch command is exactly `llama-server`, the model arguments, then
/// `--port P -ngl G -c C`, separated by single spaces, for every model
/// argument list and every port, number of GPU layers and context size.
pub proof fn lemma_launch_command_text(
    model_args: Seq<Seq<char>>,
    port: u16,
    gpu_layers: i32,
    ctx_size: u32,
)
    ensures
        launch_command(model_args, port, gpu_layers, ctx_size) == join(
            seq!["llama-server"@] + model_args + seq![
            "--port"@,
            decimal(port as nat),
            "-ngl"@,
            signed_decimal(gpu_layers as int),
            "-c"@,
            decimal(ctx_size as nat),
        ],
            seq![' '],
        ),
{
    let args = server_args(model_args, port, gpu_layers, ctx_size);
    let settings = seq![
            "--port"@,
            decimal(port as nat),
            "-ngl"@,
            signed_decimal(gpu_layers as int),
            "-c"@,
            decimal(ctx_size as nat),
        ];
    assert(args =~= model_args + settings);
    lemma_join_prepend(SERVER_PROGRAM@, args, seq![' ']);
    assert(seq!["llama-server"@] + model_args + settings =~= seq![SERVER_PROGRAM@] + args);
}

/// Each model argument that is a word stays one word of the launch
/// command: the command splits into `llama-server`, the model arguments,
/// `--port` and the port, `-ngl` and the number of GPU layers, `-c` and the
/// context size, for every such setting.
pub proof fn lemma_launch_command_words(
    model_args: Seq<Seq<char>>,
    port: u16,
    gpu_layers: i32,
    ctx_size: u32,
)
    requires
        forall|i: int| 0 <= i < model_args.len() ==> is_word(#[trigger] model_args[i]),
    ensures
        words(launch_command(model_args, port, gpu_layers, ctx_size)) == seq!["llama-server"@]
            + model_args + seq![
            "--port"@,
            decimal(port as nat),
            "-ngl"@,
            signed_decimal(gpu_layers as int),
            "-c"@,
            decimal(ctx_size as nat),
        ],
        ({
            let w = words(launch_command(model_args, port, gpu_layers, ctx_size));
            let n = model_args.len() as int;
            &&& w.len() == n + 7
            &&& w[n + 1] == "--port"@ && w[n + 2] == decimal(port as nat)
            &&& w[n + 3] == "-ngl"@ && w[n + 4] == signed_decimal(gpu_layers as int)
            &&& w[n + 5] == "-c"@ && w[n + 6] == decimal(ctx_size as nat)
        }),
{
    let settings = seq![
            "--port"@,
            decimal(port as nat),
            "-ngl"@,
            signed_decimal(gpu_layers as int),
            "-c"@,
            decimal(ctx_size as nat),
        ];
    let all = seq!["llama-server"@] + model_args + settings;
    reveal_strlit("llama-server");
    reveal_strlit("--port");
    reveal_strlit("-ngl");
    reveal_strlit("-c");
    let program = "llama-server"@;
    assert(program =~= seq!['l', 'l', 'a', 'm', 'a', '-', 's', 'e', 'r', 'v', 'e', 'r']);
    assert forall|k: int| 0 <= k < program.len() implies !is_white_space(#[trigger] program[k]) by {}
    let port_flag = "--port"@;
    assert(port_flag =~= seq!['-', '-', 'p', 'o', 'r', 't']);
    assert forall|k: int| 0 <= k < port_flag.len() implies !is_white_space(
        #[trigger] port_flag[k],
    ) by {}
    let layers_flag = "-ngl"@;
    assert(layers_flag =~= seq!['-', 'n', 'g', 'l']);
    assert forall|k: int| 0 <= k < layers_flag.len() implies !is_white_space(
        #[trigger] layers_flag[k],
    ) by {}
    let ctx_flag = "-c"@;
    assert(ctx_flag =~= seq!['-', 'c']);
    assert forall|k: int| 0 <= k < ctx_flag.len() implies !is_white_space(#[trigger] ctx_flag[k]) by {}
    lemma_decimal_is_word(port as nat);
    lemma_signed_decimal_is_word(gpu_layers as int);
    lemma_decimal_is_word(ctx_size as nat);
    let n = model_args.len();
    assert forall|i: int| 0 <= i < all.len() implies is_word(#[trigger] all[i]) by {
        if i == 0 {
            assert(all[i] == program);
        } else if i <= n {
            assert(all[i] == model_args[i - 1]);
        } else {
            assert(all[i] == settings[i - 1 - n]);
        }
    }
    lemma_launch_command_text(model_args, port, gpu_layers, ctx_size);
    lemma_split_of_joined(all);
}

/// A built-in preset's arguments, handed to the launch command, come out of
/// it as the same words, followed by the settings.
pub proof fn lemma_preset_launch_words(name: Seq<char>, port: u16, gpu_layers: i32, ctx_size: u32)
    requires
        preset_args(name) is Some,
    ensures
        words(launch_command(words(preset_args(name)->0), port, gpu_layers, ctx_size)) == seq![
            "llama-server"@,
        ] + words(preset_args(name)->0) + seq![
            "--port"@,
            decimal(port as nat),
            "-ngl"@,
            signed_decimal(gpu_layers as int),
            "-c"@,
            decimal(ctx_size as nat),
        ],
{
    lemma_words_are_words(preset_args(name)->0);
    lemma_launch_command_words(words(preset_args(name)->0), port, gpu_layers, ctx_size);
}

/// The refusal of an unknown preset name repeats the name and lists every
/// built-in preset.
pub proof fn lemma_unknown_model_text_lists_presets(name: Seq<char>)
    ensures
        contains_text(unknown_model_text(name), name),
        forall|i: int|
            0 <= i < builtin_names().len() ==> contains_text(
                unknown_model_text(name),
                #[trigger] builtin_names()[i],
            ),
{
    let a = "unknown built-in model '"@;
    let b = "'. available: "@;
    let sep = ", "@;
    let names = builtin_names();
    assert(names.len() == 2);
    assert(names.drop_last() =~= seq![names[0]]);
    assert(join(names.drop_last(), sep) == names[0]);
    assert(names.last() == names[1]);
    assert(join(names, sep) == names[0] + sep + names[1]);
    let t = unknown_model_text(name);
    assert(t =~= a + name + b + names[0] + sep + names[1]);
    let p = a.len() as int;
    assert(t.subrange(p, p + name.len()) =~= name);
    let p0: int = (a.len() + name.len() + b.len()) as int;
    assert(t.subrange(p0, p0 + names[0].len()) =~= names[0]);
    let p1: int = p0 + names[0].len() + sep.len();
    assert(t.subrange(p1, p1 + names[1].len()) =~= names[1]);
    assert forall|i: int| 0 <= i < names.len() implies contains_text(t, #[trigger] names[i]) by {
        if i == 0 {
            assert(t.subrange(p0, p0 + names[0].len()) == names[0]);
        } else {
            assert(t.subrange(p1, p1 + names[1].len()) == names[1]);
        }
    }
}


/// Both refusals about the session name the session, and the refusal of a
/// running one says that llama-server is already running.
pub proof fn lemma_refusals_name_the_session(session: Seq<char>)
    ensures
        contains_text(already_running_text(session), session),
        contains_text(already_running_text(session), "already running"@),
        contains_text(no_session_text(session), session),
{
    let a = "llama-server already running in tmux session '"@;
    let n = "no tmux session '"@;
    let t = already_running_text(session);
    let u = no_session_text(session);
    assert(t.subrange(a.len() as int, (a.len() + session.len()) as int) =~= session);
    assert(u.subrange(n.len() as int, (n.len() + session.len()) as int) =~= session);
    reveal_strlit("llama-server already running in tmux session '");
    reveal_strlit("already running");
    let phrase = "already running"@;
    assert(t.subrange(13, (13 + phrase.len()) as int) =~= phrase);
}

} // verus!
