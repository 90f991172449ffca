//! Splitting a task string as a path: base name, extension, directory.
//!
//! A path is taken as plain text in which `/` separates components; nothing
//! here looks at the file system.

use crate::text::{chars_of, rfind_char};
use vstd::prelude::*;
use vstd::string::*;

verus! {

/// What follows the last `/` of `s`; all of `s` when it holds no `/`.
pub open spec fn basename_of(s: Seq<char>) -> Seq<char> {
    match s.index_of_last('/') {
        None => s,
        Some(i) => s.skip(i + 1),
    }
}

/// The extension of the base name of `s`, from its last `.` on (the dot
/// included), if the base name holds a `.`.
pub open spec fn extension_of(s: Seq<char>) -> Option<Seq<char>> {
    let base = basename_of(s);
    match base.index_of_last('.') {
        None => None,
        Some(i) => Some(base.skip(i)),
    }
}

/// `s` without the extension of its base name.
pub open spec fn without_extension(s: Seq<char>) -> Seq<char> {
    match extension_of(s) {
        None => s,
        Some(ext) => s.take(s.len() - ext.len()),
    }
}

/// `s` without the slashes at its end; a slash that is the whole of `s` stays.
pub open spec fn without_trailing_slashes(s: Seq<char>) -> Seq<char>
    decreases s.len(),
{
    if s.len() > 1 && s.last() == '/' {
        without_trailing_slashes(s.drop_last())
    } else {
        s
    }
}

/// The directory part of `s`: `.` when `s`, its trailing slashes aside, holds
/// no `/`; `/` when its only `/` comes first; else what precedes its last
/// `/`, without trailing slashes.
pub open spec fn dirname_of(s: Seq<char>) -> Seq<char> {
    let t = without_trailing_slashes(s);
    match t.index_of_last('/') {
        None => seq!['.'],
        Some(i) => if i == 0 {
            seq!['/']
        } else {
            without_trailing_slashes(t.take(i))
        },
    }
}

/// `s` without the line feed at its end, if it ends in one.
pub open spec fn chomped(s: Seq<char>) -> Seq<char> {
    if s.len() > 0 && s.last() == '\n' {
        s.drop_last()
    } else {
        s
    }
}

/// The base name of a path never holds a `/`, and the path ends with it.
pub proof fn basename_is_last_component(s: Seq<char>)
    ensures
        !basename_of(s).contains('/'),
        basename_of(s).len() <= s.len(),
        basename_of(s) == s.skip(s.len() - basename_of(s).len()),
{
    s.index_of_last_ensures('/');
    if let Some(i) = s.index_of_last('/') {
        let b = s.skip(i + 1);
        assert forall|j: int| 0 <= j < b.len() implies b[j] != '/' by {
            assert(b[j] == s[i + 1 + j]);
        }
    }
}

/// An extension starts with a dot, holds no other dot and no `/`, and the
/// path ends with it.
pub proof fn extension_is_suffix(s: Seq<char>)
    ensures
        extension_of(s) matches Some(ext) ==> {
            &&& 1 <= ext.len() <= basename_of(s).len()
            &&& ext[0] == '.'
            &&& !ext.skip(1).contains('.')
            &&& !ext.contains('/')
            &&& ext == s.skip(s.len() - ext.len())
        },
{
    basename_is_last_component(s);
    let base = basename_of(s);
    base.index_of_last_ensures('.');
    if let Some(i) = base.index_of_last('.') {
        let ext = base.skip(i);
        assert forall|j: int| 0 <= j < ext.skip(1).len() implies ext.skip(1)[j] != '.' by {
            assert(ext.skip(1)[j] == base[i + 1 + j]);
        }
        assert forall|j: int| 0 <= j < ext.len() implies ext[j] != '/' by {
            assert(base.contains(base[i + j]));
        }
    }
}

/// Removing trailing slashes leaves a prefix that takes away slashes only,
/// and that ends in a slash only where it is a single character.
pub proof fn trailing_slashes_removed(s: Seq<char>)
    ensures
        without_trailing_slashes(s).len() <= s.len(),
        without_trailing_slashes(s) == s.take(without_trailing_slashes(s).len() as int),
        forall|j: int| without_trailing_slashes(s).len() <= j < s.len() ==> s[j] == '/',
        s.len() >= 1 ==> without_trailing_slashes(s).len() >= 1,
        without_trailing_slashes(s).len() > 1 ==> without_trailing_slashes(s).last() != '/',
    decreases s.len(),
{
    if s.len() > 1 && s.last() == '/' {
        let d = s.drop_last();
        trailing_slashes_removed(d);
        let t = without_trailing_slashes(d);
        assert forall|j: int| t.len() <= j < s.len() implies s[j] == '/' by {
            if j < d.len() {
                assert(d[j] == s[j]);
            }
        }
    }
}

/// A directory part is never empty, and it ends in a slash only where it is
/// the root.
pub proof fn dirname_is_a_directory(s: Seq<char>)
    ensures
        dirname_of(s).len() >= 1,
        dirname_of(s).len() > 1 ==> dirname_of(s).last() != '/',
{
    let t = without_trailing_slashes(s);
    t.index_of_last_ensures('/');
    if let Some(i) = t.index_of_last('/') {
        if i > 0 {
            trailing_slashes_removed(t.take(i));
        }
    }
}

/// The part of `s` after its last `/`.
pub fn basename(s: &str) -> (r: &str)
    ensures
        r@ == basename_of(s@),
{
    let v = chars_of(s);
    let n = v.len();
    assert(v@.take(n as int) =~= s@);
    match rfind_char(&v, n, '/') {
        None => s,
        Some(i) => {
            s.substring_char(i + 1, n)
        },
    }
}

/// The extension of the base name of `s`, with its dot.
pub fn extension(s: &str) -> (r: Option<&str>)
    ensures
        match r {
            Some(ext) => extension_of(s@) == Some(ext@),
            None => extension_of(s@) is None,
        },
{
    let base = basename(s);
    let v = chars_of(base);
    let n = v.len();
    assert(v@.take(n as int) =~= base@);
    match rfind_char(&v, n, '.') {
        None => None,
        Some(i) => {
            Some(base.substring_char(i, n))
        },
    }
}

/// `s` without the extension of its base name.
pub fn remove_extension(s: &str) -> (r: &str)
    ensures
        r@ == without_extension(s@),
{
    match extension(s) {
        None => s,
        Some(ext) => {
            proof {
                extension_is_suffix(s@);
                basename_is_last_component(s@);
            }
            let n = s.unicode_len();
            let m = ext.unicode_len();
            s.substring_char(0, n - m)
        },
    }
}

/// The directory part of `s`.
pub fn dirname(s: &str) -> (r: &str)
    ensures
        r@ == dirname_of(s@),
{
    let t = remove_redundant_trailing_slashes(s);
    let v = chars_of(t);
    let n = v.len();
    assert(v@.take(n as int) =~= t@);
    match rfind_char(&v, n, '/') {
        None => {
            proof {
                reveal_strlit(".");
            }
            "."
        },
        Some(i) => {
            if i == 0 {
                proof {
                    reveal_strlit("/");
                }
                "/"
            } else {
                remove_redundant_trailing_slashes(t.substring_char(0, i))
            }
        },
    }
}

/// `s` without the slashes at its end, keeping a slash that stands alone.
pub fn remove_redundant_trailing_slashes(s: &str) -> (r: &str)
    ensures
        r@ == without_trailing_slashes(s@),
{
    let v = chars_of(s);
    let mut n: usize = v.len();
    assert(s@.take(n as int) =~= s@);
    while n > 1 && v[n - 1] == '/'
        invariant
            n <= v.len(),
            v@ == s@,
            without_trailing_slashes(s@) == without_trailing_slashes(s@.take(n as int)),
        decreases n,
    {
        assert(s@.take(n as int).drop_last() =~= s@.take(n - 1));
        n -= 1;
    }
    s.substring_char(0, n)
}

/// Takes the line feed off the end of `s`, if it ends in one.
pub fn chomp(s: &mut String)
    ensures
        final(s)@ == chomped(old(s)@),
{
    let v = chars_of(s.as_str());
    let n = v.len();
    if n > 0 && v[n - 1] == '\n' {
        let kept = s.as_str().substring_char(0, n - 1).to_owned();
        *s = kept;
    }
}

} // verus!
