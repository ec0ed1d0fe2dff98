//! How the Tor process is launched: its arguments and what is prepared
//! before it starts.
use vstd::prelude::*;
use vstd::string::*;

use crate::config::{ConfigView, LogMode, TorRuntimeConfig};
use crate::control::texts;

verus! {

/// The arguments Tor is started with: the configured extra arguments, then,
/// in managed log mode, `--Log` and `notice file <log path>` so that Tor
/// writes its notices to the managed log file.
pub open spec fn tor_arguments(c: ConfigView) -> Seq<Seq<char>> {
    c.args + if c.log_mode == LogMode::Managed {
        seq!["--Log"@, "notice file "@ + c.log_path]
    } else {
        Seq::empty()
    }
}

/// The arguments Tor is started with; see `tor_arguments`.
pub fn command_arguments(config: &TorRuntimeConfig) -> (args: Vec<String>)
    ensures
        texts(args@) == tor_arguments(config@),
{
    let mut args: Vec<String> = Vec::new();
    let mut i: usize = 0;
    while i < config.args.len()
        invariant
            i <= config.args@.len(),
            texts(args@) == texts(config.args@).subrange(0, i as int),
        decreases config.args@.len() - i,
    {
        let ghost prev = args@;
        args.push(config.args[i].clone());
        proof {
            assert(texts(args@) =~= texts(prev).push(config.args@[i as int]@));
            assert(texts(config.args@).subrange(0, i + 1) =~= texts(config.args@).subrange(
                0,
                i as int,
            ).push(config.args@[i as int]@));
        }
        i = i + 1;
    }
    assert(texts(config.args@).subrange(0, i as int) =~= texts(config.args@));
    if config.log_mode.is_managed() {
        let ghost prev = args@;
        args.push(String::from_str("--Log"));
        args.push(String::from_str("notice file ").concat(config.log_path.as_str()));
        assert(texts(args@) =~= texts(prev) + seq!["--Log"@, "notice file "@ + config.log_path@]);
    } else {
        assert(texts(args@) =~= texts(config.args@) + Seq::<Seq<char>>::empty());
    }
    args
}

/// The configured extra arguments always come first, whatever the log mode:
/// an external log file adds nothing after them, and a managed one adds
/// exactly the `--Log` pair that points Tor at the managed log path.
pub proof fn lemma_extra_arguments_first(c: ConfigView)
    ensures
        tor_arguments(c).len() >= c.args.len(),
        tor_arguments(c).subrange(0, c.args.len() as int) == c.args,
        c.log_mode == LogMode::External ==> tor_arguments(c) == c.args,
        c.log_mode == LogMode::Managed ==> {
            &&& tor_arguments(c).len() == c.args.len() + 2
            &&& tor_arguments(c)[c.args.len() as int] == "--Log"@
            &&& tor_arguments(c)[c.args.len() + 1int] == "notice file "@ + c.log_path
        },
{
    assert(tor_arguments(c).subrange(0, c.args.len() as int) =~= c.args);
    if c.log_mode == LogMode::External {
        assert(tor_arguments(c) =~= c.args);
    }
}

/// Whether the log file is created (or emptied) before Tor starts: only in
/// managed mode, since an external log file belongs to someone else.
pub fn prepares_log_file(log_mode: LogMode) -> (b: bool)
    ensures
        b == (log_mode == LogMode::Managed),
{
    log_mode.is_managed()
}

} // verus!
