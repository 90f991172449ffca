//! Rendering an argument vector as text that a shell would read back as the
//! same arguments. The text is for people to read: it is printed in logs and
//! in dry runs and never executed.

use crate::text::{chars_of, texts};
use vstd::prelude::*;
use vstd::string::*;

verus! {

/// Characters that a shell takes literally.
pub open spec fn is_shell_safe(c: char) -> bool {
    ('A' <= c && c <= 'Z') || ('a' <= c && c <= 'z') || ('0' <= c && c <= '9') || c == '_' || c
        == '%' || c == '+' || c == ',' || c == '-' || c == '.' || c == '/' || c == ':' || c == '='
        || c == '@'
}

/// Whether every character of `s` is one that a shell takes literally.
pub open spec fn all_shell_safe(s: Seq<char>) -> bool {
    forall|i: int| 0 <= i < s.len() ==> is_shell_safe(#[trigger] s[i])
}

/// `s` as it stands between single quotes: each single quote of `s` closes
/// the quotes, stands between double quotes, and opens them again.
pub open spec fn escaped(s: Seq<char>) -> Seq<char>
    decreases s.len(),
{
    if s.len() == 0 {
        Seq::<char>::empty()
    } else if s.last() == '\'' {
        escaped(s.drop_last()) + "'\"'\"'"@
    } else {
        escaped(s.drop_last()).push(s.last())
    }
}

/// One argument as shown: two single quotes for the empty argument, the
/// argument itself when all its characters are safe, else the argument
/// between single quotes.
pub open spec fn quoted_arg(s: Seq<char>) -> Seq<char> {
    if s.len() == 0 {
        "''"@
    } else if all_shell_safe(s) {
        s
    } else {
        "'"@ + escaped(s) + "'"@
    }
}

/// The arguments as shown, with one space between two of them.
pub open spec fn quoted_cmd(args: Seq<Seq<char>>) -> Seq<char>
    decreases args.len(),
{
    if args.len() == 0 {
        Seq::<char>::empty()
    } else if args.len() == 1 {
        quoted_arg(args[0])
    } else {
        quoted_cmd(args.drop_last()) + " "@ + quoted_arg(args.last())
    }
}

fn shell_safe(c: char) -> (r: bool)
    ensures
        r == is_shell_safe(c),
{
    ('A' <= c && c <= 'Z') || ('a' <= c && c <= 'z') || ('0' <= c && c <= '9') || c == '_' || c
        == '%' || c == '+' || c == ',' || c == '-' || c == '.' || c == '/' || c == ':' || c == '='
        || c == '@'
}

/// Whether `s` can be shown to a shell without quotes.
pub fn shell_safe_chars(s: &str) -> (r: bool)
    ensures
        r == all_shell_safe(s@),
{
    let v = chars_of(s);
    let mut i: usize = 0;
    while i < v.len()
        invariant
            i <= v.len(),
            v@ == s@,
            forall|j: int| 0 <= j < i ==> is_shell_safe(#[trigger] s@[j]),
        decreases v.len() - i,
    {
        if !shell_safe(v[i]) {
            return false;
        }
        i += 1;
    }
    true
}

/// One argument, quoted where a shell would need it.
pub fn quote_arg(s: &String) -> (r: String)
    ensures
        r@ == quoted_arg(s@),
{
    let text = s.as_str();
    let v = chars_of(text);
    let n = v.len();
    if n == 0 {
        return String::from_str("''");
    }
    if shell_safe_chars(text) {
        return s.clone();
    }
    let mut acc = String::from_str("'");
    let mut start: usize = 0;
    let mut i: usize = 0;
    while i < n
        invariant
            start <= i <= n,
            n == v.len(),
            v@ == s@,
            text@ == s@,
            acc@ + s@.subrange(start as int, i as int) == "'"@ + escaped(s@.take(i as int)),
        decreases n - i,
    {
        let ghost done = escaped(s@.take(i as int));
        assert(s@.take(i + 1).drop_last() =~= s@.take(i as int));
        if v[i] == '\'' {
            acc.append(text.substring_char(start, i));
            acc.append("'\"'\"'");
            start = i + 1;
        } else {
            assert(("'"@ + done).push(s@[i as int]) =~= "'"@ + done.push(s@[i as int]));
        }
        i += 1;
    }
    acc.append(text.substring_char(start, n));
    assert(s@.take(n as int) =~= s@);
    acc.append("'");
    acc
}

/// The whole command, each argument quoted where needed.
pub fn quote_cmd(args: &Vec<String>) -> (r: String)
    ensures
        r@ == quoted_cmd(texts(args@)),
{
    let mut acc = String::new();
    let mut i: usize = 0;
    let ghost all = texts(args@);
    while i < args.len()
        invariant
            i <= args.len(),
            all == texts(args@),
            acc@ == quoted_cmd(all.take(i as int)),
        decreases args.len() - i,
    {
        assert(all.take(i + 1).drop_last() =~= all.take(i as int));
        if i > 0 {
            acc.append(" ");
        }
        let q = quote_arg(&args[i]);
        acc.append(q.as_str());
        i += 1;
    }
    assert(all.take(args.len() as int) =~= all);
    acc
}

} // verus!
