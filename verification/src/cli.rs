//! The command line of the runtime program: its arguments and the commands
//! typed at its prompt.
//!
//! Arguments: `[tor-path] [log-path] [--working-dir DIR] [--no-managed-log]
//! [-- extra tor args]`, with `-h`/`--help` for usage.
use vstd::prelude::*;
use vstd::string::*;

use crate::config::{LogMode, TorRuntimeConfig};
use crate::control::{opt_text, texts};
use crate::domain::TorCommand;
use crate::logs::{ascii_lowercase, ascii_lowercased};
use crate::text::{same_text, trim, trimmed};

verus! {

/// The options of a run.
#[derive(Debug, Clone, PartialEq, Eq)]
pub struct CliOptions {
    pub tor_path: String,
    pub log_path: String,
    pub tor_args: Vec<String>,
    pub working_dir: Option<String>,
    pub append_log_argument: bool,
}

/// What the arguments ask for.
#[derive(Debug, Clone, PartialEq, Eq)]
pub enum CliRequest {
    /// Print the usage and exit successfully.
    Help,
    /// Run with these options.
    Run(CliOptions),
}

/// The abstract options, with whether each path was given.
pub struct CliModel {
    pub tor_path: Seq<char>,
    pub tor_path_set: bool,
    pub log_path: Seq<char>,
    pub log_path_set: bool,
    pub tor_args: Seq<Seq<char>>,
    pub working_dir: Option<Seq<char>>,
    pub append_log_argument: bool,
}

/// What parsing gives, abstractly: `None` for help, the options otherwise.
pub type CliOutcome = Option<CliModel>;

/// The error for `--working-dir` without a value.
pub open spec fn missing_working_dir() -> Seq<char> {
    "--working-dir expects a path"@
}

/// The error for a third positional argument.
pub open spec fn unexpected_argument(arg: Seq<char>) -> Seq<char> {
    "unexpected argument: "@ + arg + ". Use `--` before extra tor args."@
}

/// The options before any argument is read: the executable from the
/// environment's `TORQ_TOR_EXE` or `tor.exe`, the log `tor.log`, no extra
/// arguments, no working directory, the managed log argument appended.
pub open spec fn initial_cli(tor_exe: Option<Seq<char>>) -> CliModel {
    CliModel {
        tor_path: match tor_exe {
            Some(p) => p,
            None => "tor.exe"@,
        },
        tor_path_set: false,
        log_path: "tor.log"@,
        log_path_set: false,
        tor_args: Seq::empty(),
        working_dir: None,
        append_log_argument: true,
    }
}

/// Parsing the arguments from index `i` on, from the options `m`.
pub open spec fn parse_cli_from(args: Seq<Seq<char>>, i: int, m: CliModel) -> Result<
    CliOutcome,
    Seq<char>,
>
    decreases args.len() - i,
{
    if i < 0 || i >= args.len() {
        Ok(Some(m))
    } else {
        let arg = args[i];
        if arg == "-h"@ || arg == "--help"@ {
            Ok(None)
        } else if arg == "--working-dir"@ {
            if i + 1 < args.len() {
                parse_cli_from(args, i + 2, CliModel { working_dir: Some(args[i + 1]), ..m })
            } else {
                Err(missing_working_dir())
            }
        } else if arg == "--no-managed-log"@ {
            parse_cli_from(args, i + 1, CliModel { append_log_argument: false, ..m })
        } else if arg == "--"@ {
            Ok(Some(CliModel { tor_args: m.tor_args + args.subrange(i + 1, args.len() as int), ..m }))
        } else if !m.tor_path_set {
            parse_cli_from(args, i + 1, CliModel { tor_path: arg, tor_path_set: true, ..m })
        } else if !m.log_path_set {
            parse_cli_from(args, i + 1, CliModel { log_path: arg, log_path_set: true, ..m })
        } else {
            Err(unexpected_argument(arg))
        }
    }
}

/// Whether parsed options match the abstract ones.
pub open spec fn options_match(o: CliOptions, m: CliModel) -> bool {
    &&& o.tor_path@ == m.tor_path
    &&& o.log_path@ == m.log_path
    &&& texts(o.tor_args@) == m.tor_args
    &&& opt_text(o.working_dir) == m.working_dir
    &&& o.append_log_argument == m.append_log_argument
}

/// Parses the program's arguments (without the program name), given the
/// value of `TORQ_TOR_EXE` if set. The error is the message to report.
pub fn parse_cli_args(args: &Vec<String>, tor_exe: Option<String>) -> (r: Result<
    CliRequest,
    String,
>)
    ensures
        match parse_cli_from(texts(args@), 0, initial_cli(opt_text(tor_exe))) {
            Ok(None) => r == Ok::<CliRequest, String>(CliRequest::Help),
            Ok(Some(m)) => r matches Ok(CliRequest::Run(o)) && options_match(o, m),
            Err(e) => r matches Err(msg) && msg@ == e,
        },
{
    let ghost a = texts(args@);
    let mut tor_path = match tor_exe {
        Some(p) => p,
        None => String::from_str("tor.exe"),
    };
    let mut tor_path_set = false;
    let mut log_path = String::from_str("tor.log");
    let mut log_path_set = false;
    let mut tor_args: Vec<String> = Vec::new();
    let mut working_dir: Option<String> = None;
    let mut append_log_argument = true;
    let mut i: usize = 0;
    assert(texts(tor_args@) =~= Seq::<Seq<char>>::empty());
    while i < args.len()
        invariant
            a == texts(args@),
            i <= args.len(),
            parse_cli_from(a, 0, initial_cli(opt_text(tor_exe))) == parse_cli_from(
                a,
                i as int,
                CliModel {
                    tor_path: tor_path@,
                    tor_path_set,
                    log_path: log_path@,
                    log_path_set,
                    tor_args: texts(tor_args@),
                    working_dir: opt_text(working_dir),
                    append_log_argument,
                },
            ),
        decreases args.len() - i,
    {
        let arg = args[i].as_str();
        assert(arg@ == a[i as int]);
        if same_text(arg, "-h") || same_text(arg, "--help") {
            return Ok(CliRequest::Help);
        } else if same_text(arg, "--working-dir") {
            if i + 1 < args.len() {
                working_dir = Some(args[i + 1].clone());
                i = i + 2;
            } else {
                return Err(String::from_str("--working-dir expects a path"));
            }
        } else if same_text(arg, "--no-managed-log") {
            append_log_argument = false;
            i = i + 1;
        } else if same_text(arg, "--") {
            let ghost before = tor_args@;
            let mut j: usize = i + 1;
            while j < args.len()
                invariant
                    a == texts(args@),
                    i < j <= args.len(),
                    texts(tor_args@) == texts(before) + a.subrange(i + 1, j as int),
                decreases args.len() - j,
            {
                let ghost prev = tor_args@;
                tor_args.push(args[j].clone());
                proof {
                    assert(texts(tor_args@) =~= texts(prev).push(a[j as int]));
                    assert(a.subrange(i + 1, j + 1) =~= a.subrange(i + 1, j as int).push(
                        a[j as int],
                    ));
                    assert(texts(tor_args@) =~= texts(before) + a.subrange(i + 1, j + 1));
                }
                j = j + 1;
            }
            return Ok(
                CliRequest::Run(
                    CliOptions { tor_path, log_path, tor_args, working_dir, append_log_argument },
                ),
            );
        } else if !tor_path_set {
            tor_path = args[i].clone();
            tor_path_set = true;
            i = i + 1;
        } else if !log_path_set {
            log_path = args[i].clone();
            log_path_set = true;
            i = i + 1;
        } else {
            return Err(
                String::from_str("unexpected argument: ").concat(arg).concat(
                    ". Use `--` before extra tor args.",
                ),
            );
        }
    }
    Ok(CliRequest::Run(CliOptions { tor_path, log_path, tor_args, working_dir, append_log_argument }))
}

/// The runtime configuration of a run: the given executable and log file,
/// extra arguments and working directory, with the log argument appended
/// (managed log) unless `--no-managed-log` was given.
pub fn cli_runtime_config(options: &CliOptions) -> (c: TorRuntimeConfig)
    ensures
        c@.tor_path == options.tor_path@,
        c@.log_path == options.log_path@,
        c@.args == texts(options.tor_args@),
        c@.working_dir == opt_text(options.working_dir),
        c@.log_mode == (if options.append_log_argument {
            LogMode::Managed
        } else {
            LogMode::External
        }),
        c@.torrc_path is None,
        !c@.use_torrc,
        c@.control is None,
        c@.stop_timeout_ms == 5000,
        c@.log_poll_interval_ms == 250,
{
    let base = TorRuntimeConfig::new(options.tor_path.as_str(), options.log_path.as_str());
    let mut config = base.with_args(options.tor_args.clone()).with_append_log_argument(
        options.append_log_argument,
    );
    config.working_dir = options.working_dir.clone();
    config
}

/// A command typed at the prompt.
#[derive(Debug, Clone, PartialEq, Eq)]
pub enum ReplCommand {
    /// An empty line: nothing to do.
    Nothing,
    /// A runtime command.
    Runtime(TorCommand),
    /// Print the current state.
    ShowState,
    /// Leave the prompt.
    Exit,
    /// Anything else, lower-cased.
    Unknown(String),
}

/// The command a typed line stands for: the line trimmed and lower-cased.
pub open spec fn repl_command(line: Seq<char>) -> (Seq<char>, Option<ReplCommand>) {
    let w = ascii_lowercase(trim(line));
    (
        w,
        if w.len() == 0 {
            Some(ReplCommand::Nothing)
        } else if w == "start"@ {
            Some(ReplCommand::Runtime(TorCommand::Start))
        } else if w == "stop"@ {
            Some(ReplCommand::Runtime(TorCommand::Stop))
        } else if w == "restart"@ {
            Some(ReplCommand::Runtime(TorCommand::Restart))
        } else if w == "newnym"@ {
            Some(ReplCommand::Runtime(TorCommand::NewIdentity))
        } else if w == "state"@ {
            Some(ReplCommand::ShowState)
        } else if w == "exit"@ || w == "quit"@ {
            Some(ReplCommand::Exit)
        } else {
            None
        },
    )
}

/// Reads a typed line: trimmed and lower-cased, it names a command; any
/// other word is `Unknown` with that word.
pub fn parse_repl_command(line: &str) -> (c: ReplCommand)
    ensures
        match repl_command(line@).1 {
            Some(k) => c == k,
            None => c matches ReplCommand::Unknown(w) && w@ == repl_command(line@).0,
        },
{
    let t = trimmed(line);
    let w = ascii_lowercased(t.as_str());
    let s = w.as_str();
    if s.is_empty() {
        ReplCommand::Nothing
    } else if same_text(s, "start") {
        ReplCommand::Runtime(TorCommand::Start)
    } else if same_text(s, "stop") {
        ReplCommand::Runtime(TorCommand::Stop)
    } else if same_text(s, "restart") {
        ReplCommand::Runtime(TorCommand::Restart)
    } else if same_text(s, "newnym") {
        ReplCommand::Runtime(TorCommand::NewIdentity)
    } else if same_text(s, "state") {
        ReplCommand::ShowState
    } else if same_text(s, "exit") || same_text(s, "quit") {
        ReplCommand::Exit
    } else {
        ReplCommand::Unknown(w)
    }
}

/// The reply to an unknown command.
pub fn unknown_command_message(word: &str) -> (m: String)
    ensures
        m@ == "unknown command: "@ + word@,
{
    String::from_str("unknown command: ").concat(word)
}

} // verus!
