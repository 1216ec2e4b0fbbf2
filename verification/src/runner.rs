//! The decisions of running an external DEE runner on a generated
//! configuration: which command, which arguments, which directories to
//! prepare. Writing the file, creating directories and spawning the process
//! are the caller's.
use vstd::prelude::*;

use crate::render::{format_flag, format_short_flag, RenderFormat};
use crate::text::{chars_of, clone_strings, is_alpha, is_alpha_exec, owned, str_eq};

verus! {

/// Options of a runner invocation.
#[derive(Debug, Clone)]
pub struct RunOptions {
    pub format: RenderFormat,
    pub runner_cmd: Option<String>,
    pub runner_args: Vec<String>,
    pub keep_config: bool,
    pub generated_config: Option<String>,
}

impl Default for RunOptions {
    fn default() -> (r: Self)
        ensures
            r.format == RenderFormat::Xml,
            r.runner_cmd is None,
            r.runner_args@.len() == 0,
            !r.keep_config,
            r.generated_config is None,
    {
        RunOptions {
            format: RenderFormat::Xml,
            runner_cmd: None,
            runner_args: Vec::new(),
            keep_config: false,
            generated_config: None,
        }
    }
}

/// The texts of a list of strings.
pub open spec fn texts(v: Seq<String>) -> Seq<Seq<char>> {
    v.map_values(|s: String| s@)
}

/// The runner command: the explicit one, else the one from the
/// environment, else `dee`.
pub open spec fn chosen_runner_cmd(explicit: Option<Seq<char>>, from_env: Option<Seq<char>>) -> Seq<char> {
    match explicit {
        Some(c) => c,
        None => match from_env {
            Some(c) => c,
            None => "dee"@,
        },
    }
}

pub open spec fn opt_text(o: Option<String>) -> Option<Seq<char>> {
    match o {
        Some(s) => Some(s@),
        None => None,
    }
}

/// Picks the runner command by precedence: `runner_cmd`, then the value of
/// the `DEE_RUNNER_CMD` environment variable, then `dee`.
pub fn runner_command(runner_cmd: Option<String>, env_cmd: Option<String>) -> (r: String)
    ensures
        r@ == chosen_runner_cmd(opt_text(runner_cmd), opt_text(env_cmd)),
{
    match runner_cmd {
        Some(c) => c,
        None => match env_cmd {
            Some(c) => c,
            None => owned("dee"),
        },
    }
}

/// The options' runner arguments followed by the job's.
pub fn merge_runner_args(base: &Vec<String>, extra: &Vec<String>) -> (r: Vec<String>)
    ensures
        texts(r@) == texts(base@) + texts(extra@),
{
    let mut merged = clone_strings(base);
    let mut i: usize = 0;
    while i < extra.len()
        invariant
            i <= extra.len(),
            texts(merged@) == texts(base@) + texts(extra@).take(i as int),
        decreases extra.len() - i,
    {
        let ghost before = merged@;
        merged.push(extra[i].clone());
        assert(texts(merged@) =~= texts(before).push(extra@[i as int]@));
        assert(texts(extra@).take(i + 1) =~= texts(extra@).take(i as int).push(extra@[i as int]@));
        i += 1;
    }
    assert(texts(extra@).take(extra.len() as int) =~= texts(extra@));
    merged
}

/// Whether an argument passes a configuration of the format.
pub open spec fn is_format_arg(a: Seq<char>, format: RenderFormat) -> bool {
    a == format_flag(format) || a == format_short_flag(format)
}

/// Whether the arguments already pass a configuration of the format, by its
/// long or short flag.
pub fn contains_format_arg(args: &Vec<String>, format: RenderFormat) -> (r: bool)
    ensures
        r == exists|i: int| 0 <= i < args@.len() && is_format_arg(#[trigger] args@[i]@, format),
{
    let long = format.cli_flag();
    let short = format.short_cli_flag();
    let mut i: usize = 0;
    while i < args.len()
        invariant
            i <= args.len(),
            long@ == format_flag(format),
            short@ == format_short_flag(format),
            forall|j: int| 0 <= j < i ==> !is_format_arg(#[trigger] args@[j]@, format),
        decreases args.len() - i,
    {
        if str_eq(args[i].as_str(), long) || str_eq(args[i].as_str(), short) {
            return true;
        }
        i += 1;
    }
    false
}

/// What `shell_words::split` makes of a command line: its words, or `None`
/// where a quote is left open.
pub uninterp spec fn shell_split(s: Seq<char>) -> Option<Seq<Seq<char>>>;

#[verifier::external_type_specification]
#[verifier::external_body]
pub struct ExShellParseError(shell_words::ParseError);

/// `shell_words::split`: splits a command line into words as a Unix shell
/// would, with quote removal only. The contract claims that its result
/// depends on the text alone, and names it.
#[verifier::external_body]
fn split_words(s: &str) -> (r: Result<Vec<String>, shell_words::ParseError>)
    ensures
        match r {
            Ok(w) => shell_split(s@) == Some(texts(w@)),
            Err(_) => shell_split(s@) is None,
        },
{
    shell_words::split(s)
}

/// A runner process to start: the program and its arguments.
#[derive(Debug, Clone)]
pub struct RunnerInvocation {
    pub program: String,
    pub args: Vec<String>,
}

pub open spec fn syntax_error(cmd: Seq<char>) -> Seq<char> {
    "invalid runner command syntax: "@ + cmd
}

/// The arguments that pass the configuration, unless the runner arguments
/// already do.
pub open spec fn format_args(args: Seq<Seq<char>>, format: RenderFormat, config: Seq<char>) -> Seq<Seq<char>> {
    if exists|i: int| 0 <= i < args.len() && is_format_arg(#[trigger] args[i], format) {
        Seq::empty()
    } else {
        seq![format_flag(format), config]
    }
}

/// The invocation for a runner command split into `words`: its first word
/// is the program; its other words, the runner arguments and, where these do
/// not pass one, the configuration's flag and path follow.
pub open spec fn invocation_outcome(
    cmd: Seq<char>,
    words: Option<Seq<Seq<char>>>,
    args: Seq<Seq<char>>,
    format: RenderFormat,
    config: Seq<char>,
) -> Result<(Seq<char>, Seq<Seq<char>>), Seq<char>> {
    match words {
        None => Err(syntax_error(cmd)),
        Some(w) => if w.len() == 0 {
            Err("empty runner command"@)
        } else {
            Ok((w[0], w.drop_first() + args + format_args(args, format, config)))
        },
    }
}

pub open spec fn invocation_view(r: Result<RunnerInvocation, String>) -> Result<(Seq<char>, Seq<Seq<char>>), Seq<char>> {
    match r {
        Ok(inv) => Ok((inv.program@, texts(inv.args@))),
        Err(e) => Err(e@),
    }
}

/// Builds the invocation from the words of the runner command (`None` where
/// it could not be split).
pub fn build_invocation(
    runner_cmd: &str,
    words: Option<Vec<String>>,
    args: &Vec<String>,
    format: RenderFormat,
    config_path: &str,
) -> (r: Result<RunnerInvocation, String>)
    ensures
        invocation_view(r) == invocation_outcome(
            runner_cmd@,
            match words {
                Some(w) => Some(texts(w@)),
                None => None,
            },
            texts(args@),
            format,
            config_path@,
        ),
{
    let words = match words {
        None => {
            let mut e = owned("invalid runner command syntax: ");
            e.append(runner_cmd);
            return Err(e);
        },
        Some(w) => w,
    };
    if words.len() == 0 {
        return Err(owned("empty runner command"));
    }
    let program = words[0].clone();
    let mut out: Vec<String> = Vec::new();
    let mut i: usize = 1;
    while i < words.len()
        invariant
            1 <= i <= words.len(),
            texts(out@) == texts(words@).subrange(1, i as int),
        decreases words.len() - i,
    {
        let ghost before = out@;
        out.push(words[i].clone());
        assert(texts(out@) =~= texts(before).push(words@[i as int]@));
        assert(texts(words@).subrange(1, i + 1) =~= texts(words@).subrange(1, i as int).push(
            words@[i as int]@,
        ));
        i += 1;
    }
    assert(texts(words@).subrange(1, words.len() as int) =~= texts(words@).drop_first());
    let mut j: usize = 0;
    while j < args.len()
        invariant
            j <= args.len(),
            texts(out@) == texts(words@).drop_first() + texts(args@).take(j as int),
        decreases args.len() - j,
    {
        let ghost before = out@;
        out.push(args[j].clone());
        assert(texts(out@) =~= texts(before).push(args@[j as int]@));
        assert(texts(args@).take(j + 1) =~= texts(args@).take(j as int).push(args@[j as int]@));
        j += 1;
    }
    assert(texts(args@).take(args.len() as int) =~= texts(args@));
    let present = contains_format_arg(args, format);
    proof {
        let ta = texts(args@);
        if present {
            let i = choose|i: int| 0 <= i < args@.len() && is_format_arg(#[trigger] args@[i]@, format);
            assert(ta[i] == args@[i]@);
        } else {
            assert forall|i: int| 0 <= i < ta.len() implies !is_format_arg(#[trigger] ta[i], format) by {
                assert(ta[i] == args@[i]@);
            }
        }
    }
    if !present {
        let ghost before = out@;
        out.push(owned(format.cli_flag()));
        out.push(owned(config_path));
        assert(texts(out@) =~= texts(before) + seq![format_flag(format), config_path@]);
    } else {
        assert(texts(out@) =~= texts(out@) + Seq::<Seq<char>>::empty());
    }
    Ok(RunnerInvocation { program, args: out })
}

/// Splits the runner command with `shell_words::split` and builds the
/// invocation that runs it on the configuration at `config_path`.
pub fn runner_invocation(
    runner_cmd: &str,
    args: &Vec<String>,
    format: RenderFormat,
    config_path: &str,
) -> (r: Result<RunnerInvocation, String>)
    ensures
        invocation_view(r) == invocation_outcome(
            runner_cmd@,
            shell_split(runner_cmd@),
            texts(args@),
            format,
            config_path@,
        ),
{
    let words = match split_words(runner_cmd) {
        Ok(w) => Some(w),
        Err(_) => None,
    };
    build_invocation(runner_cmd, words, args, format, config_path)
}

/// Whether a path is a Windows drive path such as `Y:/x` or `Y:\x`.
pub open spec fn is_drive_path(v: Seq<char>) -> bool {
    v.len() >= 3 && is_alpha(v[0]) && v[1] == ':' && (v[2] == '\\' || v[2] == '/')
}

/// Whether `value` starts with an ASCII drive letter, a colon and a slash or
/// backslash.
pub fn is_windows_drive_path(value: &str) -> (r: bool)
    ensures
        r == is_drive_path(value@),
{
    let v = chars_of(value);
    v.len() >= 3 && is_alpha_exec(v[0]) && v[1] == ':' && (v[2] == '\\' || v[2] == '/')
}

/// Whether an argument names a path on this host: a Windows drive path does
/// not, unless the host is Windows.
pub fn host_path_candidate(value: &str, windows_host: bool) -> (r: bool)
    ensures
        r == (windows_host || !is_drive_path(value@)),
{
    windows_host || !is_windows_drive_path(value)
}

/// A directory to create before the runner starts.
#[derive(Debug, Clone)]
pub enum DeeDir {
    /// The directory itself (a temporary directory).
    Create(String),
    /// The parent of the path (an output or log file), where it has one.
    CreateParent(String),
}

pub open spec fn is_temp_flag(f: Seq<char>) -> bool {
    f == "--temp"@ || f == "--temp-dir"@
}

pub open spec fn is_file_flag(f: Seq<char>) -> bool {
    f == "--output"@ || f == "--output-file"@ || f == "--log-file"@
}

/// The directories that the runner arguments from `i` on ask for: each
/// temporary-directory or output/log flag followed by a value that is a host
/// path; a flag's value is not read as a flag.
pub open spec fn dir_plan(args: Seq<Seq<char>>, i: int, windows_host: bool) -> Seq<(bool, Seq<char>)>
    decreases args.len() - i,
{
    if i < 0 || i >= args.len() {
        Seq::empty()
    } else if (is_temp_flag(args[i]) || is_file_flag(args[i])) && i + 1 < args.len() {
        let here: Seq<(bool, Seq<char>)> = if windows_host || !is_drive_path(args[i + 1]) {
            seq![(is_temp_flag(args[i]), args[i + 1])]
        } else {
            Seq::empty()
        };
        here + dir_plan(args, i + 2, windows_host)
    } else {
        dir_plan(args, i + 1, windows_host)
    }
}

/// `(true, path)` for a directory to create, `(false, path)` for a parent.
pub open spec fn dir_view(d: DeeDir) -> (bool, Seq<char>) {
    match d {
        DeeDir::Create(p) => (true, p@),
        DeeDir::CreateParent(p) => (false, p@),
    }
}

pub open spec fn dirs_view(v: Seq<DeeDir>) -> Seq<(bool, Seq<char>)> {
    v.map_values(|d: DeeDir| dir_view(d))
}

fn flag_kind(a: &str) -> (r: (bool, bool))
    ensures
        r.0 == is_temp_flag(a@),
        r.1 == is_file_flag(a@),
{
    let t = str_eq(a, "--temp") || str_eq(a, "--temp-dir");
    let f = str_eq(a, "--output") || str_eq(a, "--output-file") || str_eq(a, "--log-file");
    (t, f)
}

/// The directories to prepare for the runner arguments (DEE does not create
/// its temporary directory, nor the folders of its output and log files).
pub fn prepare_known_dee_dirs(args: &Vec<String>, windows_host: bool) -> (r: Vec<DeeDir>)
    ensures
        dirs_view(r@) == dir_plan(texts(args@), 0, windows_host),
{
    let ghost ta = texts(args@);
    let mut out: Vec<DeeDir> = Vec::new();
    let mut idx: usize = 0;
    while idx < args.len()
        invariant
            ta == texts(args@),
            dirs_view(out@) + dir_plan(ta, idx as int, windows_host) == dir_plan(ta, 0, windows_host),
        decreases args.len() - idx,
    {
        let (t, f) = flag_kind(args[idx].as_str());
        assert(ta[idx as int] == args@[idx as int]@);
        if (t || f) && idx + 1 < args.len() {
            let raw = &args[idx + 1];
            assert(ta[idx + 1] == args@[idx + 1]@);
            let ghost before = out@;
            if host_path_candidate(raw.as_str(), windows_host) {
                let d = if t {
                    DeeDir::Create(raw.clone())
                } else {
                    DeeDir::CreateParent(raw.clone())
                };
                out.push(d);
                assert(dirs_view(out@) =~= dirs_view(before) + seq![(t, ta[idx + 1])]);
            } else {
                assert(dirs_view(out@) =~= dirs_view(before) + Seq::<(bool, Seq<char>)>::empty());
            }
            idx += 2;
        } else {
            idx += 1;
        }
    }
    assert(dirs_view(out@) =~= dirs_view(out@) + dir_plan(ta, idx as int, windows_host));
    out
}

/// Every runner invocation passes a configuration of the job's format: the
/// runner arguments' own flag, or else the format's flag and the generated
/// file at the end (so a JSON run gets `--json`, an XML run `--xml`).
pub proof fn law_invocation_passes_config(
    cmd: Seq<char>,
    words: Option<Seq<Seq<char>>>,
    args: Seq<Seq<char>>,
    format: RenderFormat,
    config: Seq<char>,
)
    requires
        invocation_outcome(cmd, words, args, format, config) is Ok,
    ensures
        ({
            let a = invocation_outcome(cmd, words, args, format, config)->Ok_0.1;
            &&& exists|i: int| 0 <= i < a.len() && is_format_arg(#[trigger] a[i], format)
            &&& (forall|i: int| 0 <= i < args.len() ==> !is_format_arg(#[trigger] args[i], format)) ==> (a.len()
                >= 2 && a[a.len() - 2] == format_flag(format) && a.last() == config)
        }),
{
    let w = words->0;
    let a = invocation_outcome(cmd, words, args, format, config)->Ok_0.1;
    let pre = w.drop_first() + args;
    assert(a == pre + format_args(args, format, config));
    if exists|i: int| 0 <= i < args.len() && is_format_arg(#[trigger] args[i], format) {
        let i = choose|i: int| 0 <= i < args.len() && is_format_arg(#[trigger] args[i], format);
        assert(a[w.drop_first().len() + i] == args[i]);
    } else {
        assert(a[a.len() - 2] == format_flag(format));
        assert(is_format_arg(a[a.len() - 2], format));
    }
}


/// Whether the generated configuration stays on disk after the run: when
/// asked to keep it, or when its path was given.
pub open spec fn keeps_config(keep: bool, generated: Option<Seq<char>>) -> bool {
    keep || generated is Some
}

/// Whether the run leaves the generated configuration on disk.
pub fn keeps_generated_config(options: &RunOptions) -> (r: bool)
    ensures
        r == keeps_config(options.keep_config, opt_text(options.generated_config)),
{
    options.keep_config || options.generated_config.is_some()
}

pub open spec fn env_view(v: Seq<(String, String)>) -> Seq<(Seq<char>, Seq<char>)> {
    v.map_values(|p: (String, String)| (p.0@, p.1@))
}

/// What a run does around the runner process: the process to start, the
/// environment variables it gets, the directories to prepare before it and
/// whether the configuration file is removed after it.
#[derive(Debug, Clone)]
pub struct RunPlan {
    pub invocation: RunnerInvocation,
    pub env: Vec<(String, String)>,
    pub dirs: Vec<DeeDir>,
    pub remove_config: bool,
}

fn clone_env(env: &Vec<(String, String)>) -> (r: Vec<(String, String)>)
    ensures
        env_view(r@) == env_view(env@),
{
    let mut out: Vec<(String, String)> = Vec::new();
    let mut i: usize = 0;
    while i < env.len()
        invariant
            i <= env.len(),
            env_view(out@) == env_view(env@).take(i as int),
        decreases env.len() - i,
    {
        let ghost before = out@;
        let k = env[i].0.clone();
        let v = env[i].1.clone();
        out.push((k, v));
        assert(env_view(out@) =~= env_view(before).push((env@[i as int].0@, env@[i as int].1@)));
        assert(env_view(env@).take(i + 1) =~= env_view(env@).take(i as int).push(
            (env@[i as int].0@, env@[i as int].1@),
        ));
        i += 1;
    }
    assert(env_view(env@).take(env.len() as int) =~= env_view(env@));
    out
}

/// Plans the run of a resolved job's configuration, written at
/// `config_path`: the runner command by precedence (the options', then
/// `env_cmd`, the value of `DEE_RUNNER_CMD`, then `dee`), split into words;
/// the options' runner arguments followed by the job's; the job's
/// environment; the directories those arguments ask for; and the removal of
/// a configuration that was neither kept nor given a path.
pub fn plan_run(
    job: &crate::resolve::ResolvedJob,
    options: &RunOptions,
    env_cmd: Option<String>,
    config_path: &str,
    windows_host: bool,
) -> (r: Result<RunPlan, String>)
    ensures
        ({
            let cmd = chosen_runner_cmd(opt_text(options.runner_cmd), opt_text(env_cmd));
            let args = texts(options.runner_args@) + texts(job.run.runner_args@);
            let inv = invocation_outcome(cmd, shell_split(cmd), args, options.format, config_path@);
            match r {
                Ok(p) => inv == Ok::<(Seq<char>, Seq<Seq<char>>), Seq<char>>(
                    (p.invocation.program@, texts(p.invocation.args@)),
                ) && env_view(p.env@) == env_view(job.run.env@) && dirs_view(p.dirs@) == dir_plan(
                    args,
                    0,
                    windows_host,
                ) && p.remove_config == !keeps_config(options.keep_config, opt_text(options.generated_config)),
                Err(e) => inv == Err::<(Seq<char>, Seq<Seq<char>>), Seq<char>>(e@),
            }
        }),
{
    let cmd = runner_command(options.runner_cmd.clone(), env_cmd);
    let merged = merge_runner_args(&options.runner_args, &job.run.runner_args);
    let invocation = match runner_invocation(cmd.as_str(), &merged, options.format, config_path) {
        Ok(i) => i,
        Err(e) => {
            return Err(e);
        },
    };
    let dirs = prepare_known_dee_dirs(&merged, windows_host);
    let env = clone_env(&job.run.env);
    let remove_config = !keeps_generated_config(options);
    Ok(RunPlan { invocation, env, dirs, remove_config })
}

} // verus!
