//! Building the argument vector of one task: the command, its arguments with
//! the task substituted for the brace tokens, and the task itself when no
//! argument named it.

use crate::config::RunConfig;
use crate::path::{
    basename, basename_of, dirname, dirname_of, remove_extension, without_extension,
};
use crate::text::{chars_of, decimal, find_char, push_decimal, texts};
use vstd::prelude::*;
use vstd::string::*;

verus! {

/// What stands for the token `{mid}`: the task for `{}`, the task without
/// extension for `{.}`, its base name for `{/}`, its directory for `{//}`, its
/// base name without extension for `{/.}`, the task number for `{#}`. Any
/// other text between braces is no token.
pub open spec fn token_value(mid: Seq<char>, tasknum: nat, task: Seq<char>) -> Option<Seq<char>> {
    if mid == Seq::<char>::empty() {
        Some(task)
    } else if mid == seq!['.'] {
        Some(without_extension(task))
    } else if mid == seq!['/'] {
        Some(basename_of(task))
    } else if mid == seq!['/', '/'] {
        Some(dirname_of(task))
    } else if mid == seq!['/', '.'] {
        Some(without_extension(basename_of(task)))
    } else if mid == seq!['#'] {
        Some(decimal(tasknum))
    } else {
        None
    }
}

/// `s` with each token replaced, read from left to right, and whether any
/// token was found. An opening brace pairs with the first closing brace after
/// it; where the two hold no token the opening brace stands for itself and
/// reading goes on right behind it. Once no opening brace, or no closing brace
/// behind one, is left, the rest is kept as it is.
pub open spec fn expansion(s: Seq<char>, tasknum: nat, task: Seq<char>) -> (Seq<char>, bool)
    decreases s.len(),
{
    match s.index_of_first('{') {
        None => (s, false),
        Some(open) => match s.skip(open).index_of_first('}') {
            None => (s, false),
            Some(offset) => {
                proof {
                    s.index_of_first_ensures('{');
                    s.skip(open).index_of_first_ensures('}');
                }
                let close = open + offset;
                match token_value(s.subrange(open + 1, close), tasknum, task) {
                    Some(value) => {
                        let rest = expansion(s.skip(close + 1), tasknum, task);
                        (s.take(open) + value + rest.0, true)
                    },
                    None => {
                        let rest = expansion(s.skip(open + 1), tasknum, task);
                        (s.take(open).push('{') + rest.0, rest.1)
                    },
                }
            },
        },
    }
}

/// The first opening brace and the first closing brace after it lie within
/// the text, the closing one behind the opening one.
pub proof fn braces_in_bounds(s: Seq<char>)
    ensures
        s.index_of_first('{') matches Some(open) ==> {
            &&& 0 <= open < s.len()
            &&& s[open] == '{'
            &&& s.skip(open).index_of_first('}') matches Some(offset) ==> 0 < offset
                && open + offset < s.len() && s[open + offset] == '}'
        },
{
    s.index_of_first_ensures('{');
    if let Some(open) = s.index_of_first('{') {
        s.skip(open).index_of_first_ensures('}');
    }
}

/// A text without an opening brace is its own expansion and holds no token.
pub proof fn expansion_without_braces(s: Seq<char>, tasknum: nat, task: Seq<char>)
    requires
        !s.contains('{'),
    ensures
        expansion(s, tasknum, task) == (s, false),
{
    s.index_of_first_ensures('{');
}

/// Where no token is found the expansion is the text itself.
pub proof fn expansion_without_token_is_the_text(s: Seq<char>, tasknum: nat, task: Seq<char>)
    ensures
        !expansion(s, tasknum, task).1 ==> expansion(s, tasknum, task).0 == s,
    decreases s.len(),
{
    braces_in_bounds(s);
    if let Some(open) = s.index_of_first('{') {
        if let Some(offset) = s.skip(open).index_of_first('}') {
            let close = open + offset;
            if token_value(s.subrange(open + 1, close), tasknum, task) is None {
                let tail = s.skip(open + 1);
                expansion_without_token_is_the_text(tail, tasknum, task);
            }
        }
    }
}

/// The value for the token in `v[from..to]`, if it is one.
fn token(v: &Vec<char>, from: usize, to: usize, tasknum: usize, task: &str) -> (r: Option<String>)
    requires
        from <= to <= v.len(),
    ensures
        match r {
            Some(value) => token_value(v@.subrange(from as int, to as int), tasknum as nat, task@)
                == Some(value@),
            None => token_value(v@.subrange(from as int, to as int), tasknum as nat, task@)
                is None,
        },
{
    let ghost mid = v@.subrange(from as int, to as int);
    let n = to - from;
    if n == 0 {
        assert(mid =~= Seq::<char>::empty());
        Some(task.to_owned())
    } else if n == 1 && v[from] == '.' {
        assert(mid =~= seq!['.']);
        Some(remove_extension(task).to_owned())
    } else if n == 1 && v[from] == '/' {
        assert(mid =~= seq!['/']);
        Some(basename(task).to_owned())
    } else if n == 2 && v[from] == '/' && v[from + 1] == '/' {
        assert(mid =~= seq!['/', '/']);
        Some(dirname(task).to_owned())
    } else if n == 2 && v[from] == '/' && v[from + 1] == '.' {
        assert(mid =~= seq!['/', '.']);
        Some(remove_extension(basename(task)).to_owned())
    } else if n == 1 && v[from] == '#' {
        assert(mid =~= seq!['#']);
        assert(mid[0] != '.' && mid[0] != '/');
        let mut value = String::new();
        push_decimal(&mut value, tasknum as u64);
        assert(value@ =~= decimal(tasknum as nat));
        Some(value)
    } else {
        assert(mid.len() == n);
        assert(n >= 1 ==> mid[0] == v@[from as int]);
        assert(seq!['/', '/'][0] == '/' && seq!['/', '/'][1] == '/');
        None
    }
}

/// Replaces the tokens of `s` by what they stand for, given the task. Returns
/// nothing when `s` holds no token.
pub fn subst(s: &str, tasknum: usize, task: &str) -> (r: Option<String>)
    ensures
        match r {
            Some(text) => expansion(s@, tasknum as nat, task@) == (text@, true),
            None => !expansion(s@, tasknum as nat, task@).1,
        },
{
    let v = chars_of(s);
    let n = v.len();
    let mut acc = String::new();
    let mut found = false;
    let mut pos: usize = 0;
    let ghost whole = expansion(s@, tasknum as nat, task@);
    assert(s@.skip(0) =~= s@);
    loop
        invariant
            pos <= n,
            n == v.len(),
            v@ == s@,
            whole == expansion(s@, tasknum as nat, task@),
            whole.0 == acc@ + expansion(s@.skip(pos as int), tasknum as nat, task@).0,
            whole.1 == (found || expansion(s@.skip(pos as int), tasknum as nat, task@).1),
        ensures
            pos <= n,
            n == v.len(),
            v@ == s@,
            whole.0 == acc@ + s@.skip(pos as int),
            whole.1 == found,
        decreases n - pos,
    {
        let ghost rest = s@.skip(pos as int);
        proof {
            braces_in_bounds(rest);
        }
        let open = match find_char(&v, pos, '{') {
            Some(i) => i,
            None => { break ; },
        };
        assert(rest.skip(open - pos) =~= s@.skip(open as int));
        let close = match find_char(&v, open, '}') {
            Some(i) => i,
            None => { break ; },
        };
        assert(rest.subrange(open - pos + 1, close - pos) =~= v@.subrange(
            open + 1,
            close as int,
        ));
        acc.append(s.substring_char(pos, open));
        match token(&v, open + 1, close, tasknum, task) {
            Some(value) => {
                assert(rest.skip(close - pos + 1) =~= s@.skip(close + 1));
                acc.append(value.as_str());
                found = true;
                pos = close + 1;
            },
            None => {
                assert(rest.skip(open - pos + 1) =~= s@.skip(open + 1));
                proof {
                    reveal_strlit("{");
                }
                acc.append("{");
                pos = open + 1;
            },
        }
    }
    acc.append(s.substring_char(pos, n));
    if found {
        Some(acc)
    } else {
        None
    }
}

/// One command argument as it is handed to the process: its expansion where
/// it holds a token, else the argument as it is.
pub open spec fn substituted(arg: Seq<char>, tasknum: nat, task: Seq<char>) -> Seq<char> {
    let e = expansion(arg, tasknum, task);
    if e.1 {
        e.0
    } else {
        arg
    }
}

/// Whether one of the arguments holds a token.
pub open spec fn names_task(cmdargs: Seq<Seq<char>>, tasknum: nat, task: Seq<char>) -> bool {
    exists|i: int| 0 <= i < cmdargs.len() && (#[trigger] expansion(cmdargs[i], tasknum, task)).1
}

/// What is executed before the arguments: the command itself, or the shell
/// with `-c`, the command as its script and `-` as the script's name.
pub open spec fn command_prefix(shell: Option<Seq<char>>, cmd: Seq<char>) -> Seq<Seq<char>> {
    match shell {
        Some(sh) => seq![sh, "-c"@, cmd, "-"@],
        None => seq![cmd],
    }
}

/// The argument vector of one task: the command prefix, then every argument
/// with its tokens replaced, then the task itself if no argument held a token.
pub open spec fn argv_of(
    shell: Option<Seq<char>>,
    cmd: Seq<char>,
    cmdargs: Seq<Seq<char>>,
    tasknum: nat,
    task: Seq<char>,
) -> Seq<Seq<char>> {
    let body = command_prefix(shell, cmd) + Seq::new(
        cmdargs.len(),
        |i: int| substituted(cmdargs[i], tasknum, task),
    );
    if names_task(cmdargs, tasknum, task) {
        body
    } else {
        body.push(task)
    }
}

/// An argument vector starts with what is executed, so it is never empty.
pub proof fn argv_is_not_empty(
    shell: Option<Seq<char>>,
    cmd: Seq<char>,
    cmdargs: Seq<Seq<char>>,
    tasknum: nat,
    task: Seq<char>,
)
    ensures
        argv_of(shell, cmd, cmdargs, tasknum, task).len() >= 1,
        argv_of(shell, cmd, cmdargs, tasknum, task)[0] == match shell {
            Some(sh) => sh,
            None => cmd,
        },
{
}

/// Builds the argument vector for one task.
pub fn build_argv(
    opts: &RunConfig,
    cmd: &String,
    cmdargs: &[String],
    tasknum: usize,
    task: &String,
) -> (argv: Vec<String>)
    ensures
        texts(argv@) == argv_of(
            opts.shell_text(),
            cmd@,
            texts(cmdargs@),
            tasknum as nat,
            task@,
        ),
{
    let mut argv: Vec<String> = Vec::new();
    let mut havetask = false;
    match &opts.shell {
        Some(shell) => {
            argv.push(shell.clone());
            argv.push(String::from_str("-c"));
            argv.push(cmd.clone());
            argv.push(String::from_str("-"));
        },
        None => {
            argv.push(cmd.clone());
        },
    }
    let ghost prefix = command_prefix(opts.shell_text(), cmd@);
    let ghost args = texts(cmdargs@);
    let mut i: usize = 0;
    while i < cmdargs.len()
        invariant
            i <= cmdargs.len(),
            args == texts(cmdargs@),
            texts(argv@) == prefix + Seq::new(
                i as nat,
                |k: int| substituted(args[k], tasknum as nat, task@),
            ),
            havetask == names_task(args.take(i as int), tasknum as nat, task@),
        decreases cmdargs.len() - i,
    {
        let ghost before = texts(argv@);
        let ghost next = args.take(i + 1);
        match subst(cmdargs[i].as_str(), tasknum, task.as_str()) {
            Some(substarg) => {
                argv.push(substarg);
                havetask = true;
                assert(expansion(next[i as int], tasknum as nat, task@).1);
            },
            None => {
                argv.push(cmdargs[i].clone());
            },
        }
        assert(texts(argv@) =~= before.push(substituted(args[i as int], tasknum as nat, task@)));
        i += 1;
    }
    assert(args.take(cmdargs.len() as int) =~= args);
    if !havetask {
        argv.push(task.clone());
    }
    argv
}

} // verus!
