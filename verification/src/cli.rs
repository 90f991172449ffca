//! Reading the command line: the options of a run, the command, and where
//! the tasks come from.

use crate::config::{ConfigError, RunConfig};
use crate::getopt::{
    declare_flag, declare_flag_multi, declare_value, declared_names, free_arguments,
    host_parallelism, long_only, new_parser, opt_present, opt_str, option_table, parse,
    parse_outcome, parsed_line, stop_at_first_free, table_allowed,
    usage_of, usage_text, FailureKind, Occurrence, OptionDecl, ParseFailure, ParsedLine,
    ValueMode,
};
use crate::text::{chars_of, same_text, texts};
use vstd::prelude::*;
use vstd::string::*;

verus! {

/// What the environment says of the user's shell.
#[derive(Clone, Debug, PartialEq, Eq)]
pub enum ShellVar {
    /// The variable `SHELL` holds this path.
    Value(String),
    /// The variable is not set.
    NotPresent,
    /// The variable holds what is no valid Unicode.
    NotUnicode,
}

/// The options as they stand on the command line.
#[derive(Clone, Debug, PartialEq, Eq)]
pub struct Flags {
    /// The value of `-j`, if it was given.
    pub jobs: Option<String>,
    /// Whether `-k` was given.
    pub keepgoing: bool,
    /// Whether `-c` was given.
    pub shell: bool,
    /// Whether `-v` was given.
    pub verbose: bool,
    /// Whether `-n` was given.
    pub dryrun: bool,
}

/// What is to be run: the command, its arguments, and the tasks where the
/// command line names them. Without tasks on the command line, they are read
/// line by line from standard input.
#[derive(Clone, Debug, PartialEq, Eq)]
pub struct Invocation {
    /// The command.
    pub cmd: String,
    /// The arguments of the command, tokens not yet replaced.
    pub cmdargs: Vec<String>,
    /// The tasks given after `:::`, if the command line holds a `:::`.
    pub tasks: Option<Vec<String>>,
}

/// The value of a decimal digit; 0 for any other character.
pub open spec fn digit_value(c: char) -> nat {
    if c == '1' {
        1
    } else if c == '2' {
        2
    } else if c == '3' {
        3
    } else if c == '4' {
        4
    } else if c == '5' {
        5
    } else if c == '6' {
        6
    } else if c == '7' {
        7
    } else if c == '8' {
        8
    } else if c == '9' {
        9
    } else {
        0
    }
}

/// Whether `s` holds decimal digits only.
pub open spec fn all_digits(s: Seq<char>) -> bool {
    forall|i: int| 0 <= i < s.len() ==> '0' <= #[trigger] s[i] && s[i] <= '9'
}

/// The number that the digits of `s` stand for.
pub open spec fn digits_value(s: Seq<char>) -> nat
    decreases s.len(),
{
    if s.len() == 0 {
        0
    } else {
        digits_value(s.drop_last()) * 10 + digit_value(s.last())
    }
}

/// The number that `s` stands for, if it is one: at least one decimal digit,
/// with or without a `+` before them.
pub open spec fn number_of(s: Seq<char>) -> Option<nat> {
    let digits = if s.len() > 0 && s[0] == '+' {
        s.skip(1)
    } else {
        s
    };
    if digits.len() > 0 && all_digits(digits) {
        Some(digits_value(digits))
    } else {
        None
    }
}

/// The number of job slots that the value of `-j` asks for; 0 where the
/// value is no number, or one too large for the machine.
pub open spec fn jobs_of(s: Seq<char>) -> nat {
    match number_of(s) {
        Some(n) => if n <= usize::MAX {
            n
        } else {
            0
        },
        None => 0,
    }
}

/// More digits never make a smaller number.
proof fn digits_value_grows(s: Seq<char>, k: int)
    requires
        0 <= k <= s.len(),
    ensures
        digits_value(s.take(k)) <= digits_value(s),
    decreases s.len() - k,
{
    if k < s.len() {
        digits_value_grows(s, k + 1);
        assert(s.take(k + 1).drop_last() =~= s.take(k));
        assert(digits_value(s.take(k)) * 10 >= digits_value(s.take(k))) by (nonlinear_arith);
    } else {
        assert(s.take(k) =~= s);
    }
}

fn digit_of(c: char) -> (r: Option<usize>)
    ensures
        match r {
            Some(d) => '0' <= c && c <= '9' && d == digit_value(c) && d < 10,
            None => !('0' <= c && c <= '9'),
        },
{
    if c == '0' {
        Some(0)
    } else if c == '1' {
        Some(1)
    } else if c == '2' {
        Some(2)
    } else if c == '3' {
        Some(3)
    } else if c == '4' {
        Some(4)
    } else if c == '5' {
        Some(5)
    } else if c == '6' {
        Some(6)
    } else if c == '7' {
        Some(7)
    } else if c == '8' {
        Some(8)
    } else if c == '9' {
        Some(9)
    } else {
        None
    }
}

/// Reads the value of `-j`. What is no number, or too large a one, reads as 0.
pub fn parse_jobs(s: &str) -> (n: usize)
    ensures
        n == jobs_of(s@),
{
    let v = chars_of(s);
    let start: usize = if v.len() > 0 && v[0] == '+' {
        1
    } else {
        0
    };
    let ghost digits = s@.skip(start as int);
    if start == v.len() {
        return 0;
    }
    let mut acc: usize = 0;
    let mut i: usize = start;
    while i < v.len()
        invariant
            start <= i <= v.len(),
            v@ == s@,
            digits == s@.skip(start as int),
            digits.len() > 0,
            digits == if s@.len() > 0 && s@[0] == '+' {
                s@.skip(1)
            } else {
                s@
            },
            forall|j: int| 0 <= j < i - start ==> '0' <= #[trigger] digits[j] && digits[j] <= '9',
            acc == digits_value(digits.take(i - start)),
        decreases v.len() - i,
    {
        assert(digits[i - start] == v@[i as int]);
        assert(digits.take(i - start + 1).drop_last() =~= digits.take(i - start));
        let d = match digit_of(v[i]) {
            Some(d) => d,
            None => {
                return 0;
            },
        };
        let next = match acc.checked_mul(10) {
            Some(tens) => tens.checked_add(d),
            None => None,
        };
        match next {
            Some(value) => {
                acc = value;
            },
            None => {
                proof {
                    digits_value_grows(digits, i - start + 1);
                }
                return 0;
            },
        }
        i += 1;
    }
    assert(digits.take(digits.len() as int) =~= digits);
    acc
}

/// The number of job slots where `-j` was not given: what the machine
/// offers, and one slot at least.
pub open spec fn default_slots(cpus: nat) -> nat {
    if cpus < 1 {
        1
    } else {
        cpus
    }
}

/// Whether `r` is what the options of the command line amount to, on a
/// machine that offers `cpus` processors. A value of `-j` that is no positive
/// number is refused. With `-c` the command runs in the user's shell, or in
/// `/bin/sh` where the environment names none; a shell whose name is no
/// valid Unicode is refused.
pub open spec fn decided(
    flags: Flags,
    shell: ShellVar,
    cpus: nat,
    r: Result<RunConfig, ConfigError>,
) -> bool {
    if flags.jobs matches Some(s) && jobs_of(s@) < 1 {
        r == Err::<RunConfig, ConfigError>(ConfigError::InvalidJobs)
    } else if flags.shell && shell is NotUnicode {
        r == Err::<RunConfig, ConfigError>(ConfigError::ShellNotUnicode)
    } else {
        &&& r matches Ok(config)
        &&& config.maxjobs == match flags.jobs {
            Some(s) => jobs_of(s@),
            None => default_slots(cpus),
        }
        &&& config.maxjobs >= 1
        &&& config.keepgoing == flags.keepgoing
        &&& config.verbose == flags.verbose
        &&& config.dryrun == flags.dryrun
        &&& config.shell_text() == if flags.shell {
            match shell {
                ShellVar::Value(path) => Some(path@),
                _ => Some("/bin/sh"@),
            }
        } else {
            None
        }
    }
}

/// Turns the options of the command line into the settings of a run.
pub fn options_from_flags(flags: &Flags, shell: &ShellVar, cpus: usize) -> (r: Result<
    RunConfig,
    ConfigError,
>)
    ensures
        decided(*flags, *shell, cpus as nat, r),
{
    let maxjobs = match &flags.jobs {
        Some(s) => {
            let n = parse_jobs(s.as_str());
            if n < 1 {
                return Err(ConfigError::InvalidJobs);
            }
            n
        },
        None => if cpus < 1 {
            1
        } else {
            cpus
        },
    };
    let shell_path = if flags.shell {
        match shell {
            ShellVar::Value(path) => Some(path.clone()),
            ShellVar::NotPresent => Some(String::from_str("/bin/sh")),
            ShellVar::NotUnicode => {
                return Err(ConfigError::ShellNotUnicode);
            },
        }
    } else {
        None
    };
    Ok(
        RunConfig {
            maxjobs,
            keepgoing: flags.keepgoing,
            shell: shell_path,
            verbose: flags.verbose,
            dryrun: flags.dryrun,
        },
    )
}

/// What the parser's fault reads like.
pub open spec fn failure_text(kind: FailureKind, option: Seq<char>) -> Seq<char> {
    match kind {
        FailureKind::ArgumentMissing => "Argument to option '"@ + option + "' missing"@,
        FailureKind::UnrecognizedOption => "Unrecognized option: '"@ + option + "'"@,
        FailureKind::OptionMissing => "Required option '"@ + option + "' missing"@,
        FailureKind::OptionDuplicated => "Option '"@ + option + "' given more than once"@,
        FailureKind::UnexpectedArgument => "Option '"@ + option + "' does not take an argument"@,
    }
}

/// The text for a fault that the parser found.
pub fn failure_message(failure: &ParseFailure) -> (r: String)
    ensures
        r@ == failure_text(failure.kind, failure.option@),
{
    let mut acc = String::new();
    let option = failure.option.as_str();
    match failure.kind {
        FailureKind::ArgumentMissing => {
            acc.append("Argument to option '");
            acc.append(option);
            acc.append("' missing");
        },
        FailureKind::UnrecognizedOption => {
            acc.append("Unrecognized option: '");
            acc.append(option);
            acc.append("'");
        },
        FailureKind::OptionMissing => {
            acc.append("Required option '");
            acc.append(option);
            acc.append("' missing");
        },
        FailureKind::OptionDuplicated => {
            acc.append("Option '");
            acc.append(option);
            acc.append("' given more than once");
        },
        FailureKind::UnexpectedArgument => {
            acc.append("Option '");
            acc.append(option);
            acc.append("' does not take an argument");
        },
    }
    acc
}

impl ConfigError {
    /// What is printed for the error.
    pub open spec fn text(&self) -> Seq<char> {
        match self {
            ConfigError::BadOption(message) => message@ + "\n"@,
            ConfigError::Help(text) => text@,
            ConfigError::InvalidJobs => "invalid argument for --jobs\n"@,
            ConfigError::ShellNotUnicode => "SHELL value not Unicode\n"@,
            ConfigError::NoCommand => "no command\n"@,
        }
    }

    /// Whether what is printed goes to standard output: the help text does;
    /// any other goes to standard error.
    pub fn for_stdout(&self) -> (r: bool)
        ensures
            r == (self is Help),
    {
        match self {
            ConfigError::Help(_) => true,
            _ => false,
        }
    }

    /// What is printed for the error.
    pub fn message(&self) -> (r: String)
        ensures
            r@ == self.text(),
    {
        match self {
            ConfigError::BadOption(message) => {
                let mut acc = message.clone();
                acc.append("\n");
                acc
            },
            ConfigError::Help(text) => text.clone(),
            ConfigError::InvalidJobs => String::from_str("invalid argument for --jobs\n"),
            ConfigError::ShellNotUnicode => String::from_str("SHELL value not Unicode\n"),
            ConfigError::NoCommand => String::from_str("no command\n"),
        }
    }
}

/// What stands above the list of options in the help text.
pub open spec fn usage_head() -> Seq<char> {
    "Usage:\n"@ + "    ljobs [OPTIONS...] COMMAND [CMD-ARGS...] ::: TASKS...\n"@
        + "    ljobs [OPTIONS...] COMMAND [CMD-ARGS...] < TASKS"@
}

/// What stands below the list of options in the help text.
pub open spec fn usage_tail() -> Seq<char> {
    "String substitutions in command arguments:\n"@ + "    {}                  task\n"@
        + "    {.}                 task without extension\n"@
        + "    {/}                 basename of task\n"@
        + "    {//}                dirname of task\n"@
        + "    {/.}                basename of task without extension\n"@
        + "    {#}                 task number\n"@ + "\n"@
}

/// The help text around the parser's list of options.
pub open spec fn help_text(options: Seq<char>) -> Seq<char> {
    usage_head() + options + "\n"@ + usage_tail()
}

/// The help text for the options of this parser.
pub fn usage(getopt: &getopts::Options) -> (r: String)
    requires
        table_allowed(option_table(*getopt)),
    ensures
        r@ == help_text(usage_text(option_table(*getopt), long_only(*getopt), ""@)),
{
    let mut acc = String::new();
    acc.append("Usage:\n");
    acc.append("    ljobs [OPTIONS...] COMMAND [CMD-ARGS...] ::: TASKS...\n");
    acc.append("    ljobs [OPTIONS...] COMMAND [CMD-ARGS...] < TASKS");
    let options = usage_of(getopt, "");
    acc.append(options.as_str());
    acc.append("\n");
    acc.append("String substitutions in command arguments:\n");
    acc.append("    {}                  task\n");
    acc.append("    {.}                 task without extension\n");
    acc.append("    {/}                 basename of task\n");
    acc.append("    {//}                dirname of task\n");
    acc.append("    {/.}                basename of task without extension\n");
    acc.append("    {#}                 task number\n");
    acc.append("\n");
    acc
}

/// The options of the program.
pub open spec fn program_options() -> Seq<OptionDecl> {
    seq![
        OptionDecl {
            short: "h"@,
            long: "help"@,
            desc: "print this help menu"@,
            hint: Seq::<char>::empty(),
            value: ValueMode::Flag,
            occurs: Occurrence::Many,
        },
        OptionDecl {
            short: "j"@,
            long: "jobs"@,
            desc: "number of job slots"@,
            hint: "NUM"@,
            value: ValueMode::Required,
            occurs: Occurrence::AtMostOnce,
        },
        OptionDecl {
            short: "k"@,
            long: "keep-going"@,
            desc: "keep going even if a task failed"@,
            hint: Seq::<char>::empty(),
            value: ValueMode::Flag,
            occurs: Occurrence::Many,
        },
        OptionDecl {
            short: "c"@,
            long: ""@,
            desc: "run shell command"@,
            hint: Seq::<char>::empty(),
            value: ValueMode::Flag,
            occurs: Occurrence::AtMostOnce,
        },
        OptionDecl {
            short: "v"@,
            long: "verbose"@,
            desc: "verbose output"@,
            hint: Seq::<char>::empty(),
            value: ValueMode::Flag,
            occurs: Occurrence::Many,
        },
        OptionDecl {
            short: "n"@,
            long: "dry-run"@,
            desc: "print commands but do not run them"@,
            hint: Seq::<char>::empty(),
            value: ValueMode::Flag,
            occurs: Occurrence::Many,
        },
    ]
}

/// The names of the program's options are names that the parser takes, and
/// each option can be asked for by its letter.
proof fn program_options_are_allowed()
    ensures
        table_allowed(program_options()),
        declared_names(program_options()).contains("h"@),
        declared_names(program_options()).contains("j"@),
        declared_names(program_options()).contains("k"@),
        declared_names(program_options()).contains("c"@),
        declared_names(program_options()).contains("v"@),
        declared_names(program_options()).contains("n"@),
{
    reveal_strlit("h");
    reveal_strlit("help");
    reveal_strlit("j");
    reveal_strlit("jobs");
    reveal_strlit("k");
    reveal_strlit("keep-going");
    reveal_strlit("c");
    reveal_strlit("");
    reveal_strlit("v");
    reveal_strlit("verbose");
    reveal_strlit("n");
    reveal_strlit("dry-run");
    let t = program_options();
    assert(t[0].short == "h"@);
    assert(t[1].short == "j"@);
    assert(t[2].short == "k"@);
    assert(t[3].short == "c"@);
    assert(t[4].short == "v"@);
    assert(t[5].short == "n"@);
}

/// Whether an option occurs on a parsed command line.
pub open spec fn present(line: ParsedLine, name: Seq<char>) -> bool {
    line.given[name].len() > 0
}

/// Whether `flags` holds what a parsed command line says of the options.
pub open spec fn flags_of(line: ParsedLine, flags: Flags) -> bool {
    &&& match flags.jobs {
        Some(value) => present(line, "j"@) && line.given["j"@][0] == Some(value@),
        None => !present(line, "j"@) || line.given["j"@][0] is None,
    }
    &&& flags.keepgoing == present(line, "k"@)
    &&& flags.shell == present(line, "c"@)
    &&& flags.verbose == present(line, "v"@)
    &&& flags.dryrun == present(line, "n"@)
}

/// The command line without the name of the program.
pub open spec fn arguments_of(argv: Seq<Seq<char>>) -> Seq<Seq<char>> {
    if argv.len() == 0 {
        argv
    } else {
        argv.skip(1)
    }
}

/// What the arguments after the program's name parse to.
pub open spec fn parsed(argv: Seq<Seq<char>>) -> Result<ParsedLine, (FailureKind, Seq<char>)> {
    parse_outcome(program_options(), true, false, arguments_of(argv))
}

/// Reads the options from the command line, whose first entry is the name of
/// the program. Hands back the settings of the run and the arguments that are
/// no options: the command, its arguments and perhaps the tasks.
///
/// A command line that does not fit the options is refused with the parser's
/// words. With `-h` the help text comes back and nothing runs. Else the
/// settings are what the options amount to on this machine.
pub fn process_options(argv: &Vec<String>, shell: &ShellVar) -> (r: Result<
    (RunConfig, Vec<String>),
    ConfigError,
>)
    ensures
        match parsed(texts(argv@)) {
            Err((kind, option)) => r matches Err(ConfigError::BadOption(message)) && message@
                == failure_text(kind, option),
            Ok(line) => if present(line, "h"@) {
                r matches Err(ConfigError::Help(text)) && text@ == help_text(
                    usage_text(program_options(), false, ""@),
                )
            } else {
                exists|flags: Flags, cpus: nat|
                    #![trigger flags_of(line, flags), default_slots(cpus)]
                    {
                        &&& cpus >= 1
                        &&& flags_of(line, flags)
                        &&& match r {
                            Ok((config, free)) => decided(
                                flags,
                                *shell,
                                cpus,
                                Ok::<RunConfig, ConfigError>(config),
                            ) && texts(free@) == line.free,
                            Err(e) => decided(
                                flags,
                                *shell,
                                cpus,
                                Err::<RunConfig, ConfigError>(e),
                            ),
                        }
                    }
            },
        },
{
    let mut getopt = new_parser();
    proof {
        program_options_are_allowed();
        reveal_strlit("h");
        reveal_strlit("help");
        reveal_strlit("j");
        reveal_strlit("jobs");
        reveal_strlit("k");
        reveal_strlit("keep-going");
        reveal_strlit("c");
        reveal_strlit("");
        reveal_strlit("v");
        reveal_strlit("verbose");
        reveal_strlit("n");
        reveal_strlit("dry-run");
    }
    declare_flag_multi(&mut getopt, "h", "help", "print this help menu");
    declare_value(&mut getopt, "j", "jobs", "number of job slots", "NUM");
    declare_flag_multi(&mut getopt, "k", "keep-going", "keep going even if a task failed");
    declare_flag(&mut getopt, "c", "", "run shell command");
    declare_flag_multi(&mut getopt, "v", "verbose", "verbose output");
    declare_flag_multi(&mut getopt, "n", "dry-run", "print commands but do not run them");
    stop_at_first_free(&mut getopt);
    assert(option_table(getopt) =~= program_options());

    let mut args: Vec<String> = Vec::new();
    let mut i: usize = 1;
    if argv.len() > 0 {
        while i < argv.len()
            invariant
                1 <= i <= argv.len(),
                texts(args@) == texts(argv@).subrange(1, i as int),
            decreases argv.len() - i,
        {
            let ghost before = texts(args@);
            args.push(argv[i].clone());
            assert(texts(args@) =~= before.push(argv@[i as int]@));
            i += 1;
        }
    }
    assert(texts(args@) =~= arguments_of(texts(argv@)));

    let matches = match parse(&getopt, &args) {
        Ok(m) => m,
        Err(failure) => {
            return Err(ConfigError::BadOption(failure_message(&failure)));
        },
    };
    let ghost line = parsed_line(matches);
    if opt_present(&matches, "h") {
        return Err(ConfigError::Help(usage(&getopt)));
    }
    let flags = Flags {
        jobs: opt_str(&matches, "j"),
        keepgoing: opt_present(&matches, "k"),
        shell: opt_present(&matches, "c"),
        verbose: opt_present(&matches, "v"),
        dryrun: opt_present(&matches, "n"),
    };
    assert(flags_of(line, flags));
    // The machine is asked only where `-j` does not say how many slots.
    let cpus = match &flags.jobs {
        Some(_) => 1,
        None => host_parallelism(),
    };
    let free = free_arguments(&matches);
    match options_from_flags(&flags, shell, cpus) {
        Ok(config) => {
            assert(default_slots(cpus as nat) == cpus);
            Ok((config, free))
        },
        Err(e) => {
            assert(default_slots(cpus as nat) == cpus);
            Err(e)
        },
    }
}

/// The word that parts the command from the tasks.
pub open spec fn separator() -> Seq<char> {
    ":::"@
}

/// Whether `r` is what the free arguments ask to run. The first is the
/// command. What follows, up to the first `:::`, are its arguments, and what
/// follows that `:::` are the tasks; without a `:::` all are arguments and
/// the tasks are to be read. No argument at all, or a `:::` where the command
/// should be, is refused.
pub open spec fn invoked(free: Seq<Seq<char>>, r: Result<Invocation, ConfigError>) -> bool {
    if free.len() == 0 || free[0] == separator() {
        r == Err::<Invocation, ConfigError>(ConfigError::NoCommand)
    } else {
        &&& r matches Ok(inv)
        &&& inv.cmd@ == free[0]
        &&& match free.index_of_first(separator()) {
            Some(i) => {
                &&& texts(inv.cmdargs@) == free.subrange(1, i)
                &&& inv.tasks matches Some(tasks)
                &&& texts(tasks@) == free.skip(i + 1)
            },
            None => texts(inv.cmdargs@) == free.skip(1) && inv.tasks is None,
        }
    }
}

/// Parts the free arguments into the command, its arguments and the tasks.
pub fn split_command(free: &Vec<String>) -> (r: Result<Invocation, ConfigError>)
    ensures
        invoked(texts(free@), r),
{
    let ghost all = texts(free@);
    if free.len() == 0 || same_text(free[0].as_str(), ":::") {
        return Err(ConfigError::NoCommand);
    }
    let cmd = free[0].clone();
    let mut cmdargs: Vec<String> = Vec::new();
    let mut i: usize = 1;
    let mut found = false;
    while i < free.len()
        invariant_except_break
            !found,
        invariant
            1 <= i <= free.len(),
            all == texts(free@),
            all[0] != separator(),
            forall|j: int| 0 <= j < i ==> all[j] != separator(),
            texts(cmdargs@) == all.subrange(1, i as int),
        ensures
            1 <= i <= free.len(),
            found ==> i < free.len() && all[i as int] == separator(),
            !found ==> i == free.len(),
            forall|j: int| 0 <= j < i ==> all[j] != separator(),
            texts(cmdargs@) == all.subrange(1, i as int),
        decreases free.len() - i,
    {
        if same_text(free[i].as_str(), ":::") {
            found = true;
            break ;
        }
        let ghost before = texts(cmdargs@);
        cmdargs.push(free[i].clone());
        assert(texts(cmdargs@) =~= before.push(all[i as int]));
        i += 1;
    }
    proof {
        all.index_of_first_ensures(separator());
    }
    if !found {
        return Ok(Invocation { cmd, cmdargs, tasks: None });
    }
    let at = i;
    let mut tasks: Vec<String> = Vec::new();
    i = at + 1;
    while i < free.len()
        invariant
            at + 1 <= i <= free.len(),
            all == texts(free@),
            texts(tasks@) == all.subrange(at + 1, i as int),
        decreases free.len() - i,
    {
        let ghost before = texts(tasks@);
        tasks.push(free[i].clone());
        assert(texts(tasks@) =~= before.push(all[i as int]));
        i += 1;
    }
    Ok(Invocation { cmd, cmdargs, tasks: Some(tasks) })
}

} // verus!
