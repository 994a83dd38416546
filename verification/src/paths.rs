//! Paths of the host, as texts.
//!
//! A path is a text whose parts are separated by slashes, and on a Windows
//! host by backslashes as well.

use crate::text::chars_of;
use vstd::prelude::*;
use vstd::string::*;

verus! {

/// The character that a joined path gets between its parts.
pub open spec fn separator(windows_host: bool) -> char {
    if windows_host {
        '\\'
    } else {
        '/'
    }
}

/// Whether `c` separates the parts of a path.
pub open spec fn is_separator(c: char, windows_host: bool) -> bool {
    c == '/' || (windows_host && c == '\\')
}

/// Whether `base` is a drive and nothing more: a letter and a colon, on a
/// Windows host.
pub open spec fn is_drive_alone(base: Seq<char>, windows_host: bool) -> bool {
    &&& windows_host
    &&& base.len() == 2
    &&& base[1] == ':'
    &&& (('a' <= base[0] && base[0] <= 'z') || ('A' <= base[0] && base[0] <= 'Z'))
}

/// Whether `name` can be put right behind `base`: `base` is empty, ends
/// with a separator, or is a drive alone.
pub open spec fn takes_no_separator(base: Seq<char>, windows_host: bool) -> bool {
    ||| base.len() == 0
    ||| is_separator(base.last(), windows_host)
    ||| is_drive_alone(base, windows_host)
}

/// The path of `name` under `base`, where `name` is relative: `base`, a
/// separator where `base` needs one, and `name`. This is how `Path::join`
/// of the standard library joins a relative path on such a host: the
/// empty path gives `name`, and a separator is never doubled.
pub open spec fn joined_path(base: Seq<char>, name: Seq<char>, windows_host: bool) -> Seq<char> {
    if takes_no_separator(base, windows_host) {
        base + name
    } else {
        base.push(separator(windows_host)) + name
    }
}

/// The path of `name` under `base`, where `name` is relative.
pub fn join_path(base: &str, name: &str, windows_host: bool) -> (r: String)
    ensures
        r@ == joined_path(base@, name@, windows_host),
{
    let v = chars_of(base);
    let n: usize = v.len();
    let mut r = String::from_str(base);
    let bare = if n == 0 {
        true
    } else {
        let last = v[n - 1];
        assert(last == base@.last());
        if last == '/' || (windows_host && last == '\\') {
            true
        } else {
            windows_host && n == 2 && last == ':' && (('a' <= v[0] && v[0] <= 'z') || ('A' <= v[0]
                && v[0] <= 'Z'))
        }
    };
    if !bare {
        if windows_host {
            r.push('\\');
        } else {
            r.push('/');
        }
    }
    r.append(name);
    r
}

} // verus!
