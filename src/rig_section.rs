//! How the rig list shows a rig's path in the room it has.

use crate::paths::{find_first, find_last, first_index_of, last_index_of};
use vstd::prelude::*;
use vstd::utf8::encode_utf8;

verus! {

/// The length of a text in bytes, as `str::len` gives it.
pub open spec fn byte_len(s: Seq<char>) -> usize {
    encode_utf8(s).len() as usize
}

/// `path` with a leading `home` written as `~`.
pub open spec fn shortened(path: Seq<char>, home: Seq<char>) -> Seq<char> {
    if 0 < home.len() <= path.len() && path.take(home.len() as int) == home {
        seq!['~'] + path.skip(home.len() as int)
    } else {
        path
    }
}

/// The path as shown in at most `max_len` bytes where that can be had: as it
/// is if it fits; else with the home directory as `~` if that fits; else its
/// first and last components around `/…/`, where it has more than two.
pub open spec fn truncated_path(path: Seq<char>, home: Seq<char>, max_len: usize) -> Seq<char> {
    let d = shortened(path, home);
    if byte_len(path) <= max_len {
        path
    } else if byte_len(d) <= max_len {
        d
    } else if first_index_of(d, '/') >= last_index_of(d, '/') {
        d
    } else {
        d.take(first_index_of(d, '/')) + "/…/"@ + d.skip(last_index_of(d, '/') + 1)
    }
}

/// Writes a leading `home` of `path` as `~`.
fn shorten_home(path: &str, home: &str) -> (r: String)
    ensures
        r@ == shortened(path@, home@),
{
    let n = path.unicode_len();
    let h = home.unicode_len();
    if h == 0 || h > n {
        return String::from_str(path);
    }
    let mut i: usize = 0;
    while i < h
        invariant
            h == home@.len(),
            h <= n == path@.len(),
            i <= h,
            forall|j: int| 0 <= j < i ==> path@[j] == home@[j],
        decreases h - i,
    {
        if path.get_char(i) != home.get_char(i) {
            assert(path@.take(h as int)[i as int] != home@[i as int]);
            return String::from_str(path);
        }
        i += 1;
    }
    assert(path@.take(h as int) =~= home@);
    let mut r = String::from_str("~");
    proof {
        reveal_strlit("~");
    }
    r.append(path.substring_char(h, n));
    r
}

/// Shortens `path` to fit in `max_len` bytes where it can, given the home
/// directory `home` (empty where it is unknown).
pub fn truncate_path(path: &str, home: &str, max_len: usize) -> (r: String)
    ensures
        r@ == truncated_path(path@, home@, max_len),
{
    if path.len() <= max_len {
        return String::from_str(path);
    }
    let display = shorten_home(path, home);
    if display.as_str().len() <= max_len {
        return display;
    }
    let first = find_first(display.as_str(), '/');
    match find_last(display.as_str(), '/') {
        None => display,
        Some(last) => {
            if first >= last {
                display
            } else {
                let n = display.as_str().unicode_len();
                let mut r = String::from_str(display.as_str().substring_char(0, first));
                r.append("/…/");
                r.append(display.as_str().substring_char(last + 1, n));
                r
            }
        },
    }
}

} // verus!
