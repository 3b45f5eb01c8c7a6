//! Text operations on slash-separated paths.
//!
//! A path is read as a sequence of characters. `/` separates segments; an
//! empty segment and a `.` segment name nothing, `..` names the directory
//! above, and a path that begins with `/` is rooted. All positions below
//! count characters, not bytes.

use vstd::prelude::*;
use vstd::string::*;

use crate::text::chars_of;

verus! {

/// Length of `s[..n]` once the slashes at its end are removed.
pub open spec fn trimmed_end(s: Seq<char>, n: int) -> int
    decreases n,
{
    if 0 < n <= s.len() && s[n - 1] == '/' {
        trimmed_end(s, n - 1)
    } else {
        n
    }
}

/// Where the segment that ends at `n` begins: just behind the last slash of
/// `s[..n]`, or at 0 when there is none.
pub open spec fn segment_start(s: Seq<char>, n: int) -> int
    decreases n,
{
    if 0 < n <= s.len() && s[n - 1] != '/' {
        segment_start(s, n - 1)
    } else {
        n
    }
}

/// `s[b..e]` is the segment `.`.
pub open spec fn is_dot(s: Seq<char>, b: int, e: int) -> bool {
    e == b + 1 && 0 <= b < s.len() && s[b] == '.'
}

/// `s[b..e]` is the segment `..`.
pub open spec fn is_dot_dot(s: Seq<char>, b: int, e: int) -> bool {
    e == b + 2 && 0 <= b && e <= s.len() && s[b] == '.' && s[b + 1] == '.'
}

/// Bounds of the last segment of `s[..n]` that is neither empty nor `.`.
pub open spec fn last_component(s: Seq<char>, n: int) -> Option<(int, int)>
    decreases n,
{
    let e = trimmed_end(s, n);
    if 0 < e <= n <= s.len() {
        let b = segment_start(s, e);
        if 0 <= b < e {
            if is_dot(s, b, e) {
                last_component(s, b)
            } else {
                Some((b, e))
            }
        } else {
            None
        }
    } else {
        None
    }
}

/// The final name of a path: its last segment that is neither empty nor `.`,
/// unless that segment is `..`.
pub open spec fn file_name_spec(s: Seq<char>) -> Option<Seq<char>> {
    match last_component(s, s.len() as int) {
        Some((b, e)) => if is_dot_dot(s, b, e) {
            None
        } else {
            Some(s.subrange(b, e))
        },
        None => None,
    }
}

/// How many leading characters no parent can lose: the root slash, or a
/// leading `.` segment of a path without root.
pub open spec fn anchor_len(s: Seq<char>) -> int {
    if s.len() == 0 {
        0
    } else if s[0] == '/' {
        1
    } else if s[0] == '.' && (s.len() == 1 || s[1] == '/') {
        1
    } else {
        0
    }
}

/// Length of `s[..n]` once trailing slashes and trailing `.` segments are
/// removed, never cutting into the anchor.
pub open spec fn parent_end(s: Seq<char>, n: int) -> int
    decreases n,
{
    if anchor_len(s) < n <= s.len() {
        if s[n - 1] == '/' {
            parent_end(s, n - 1)
        } else if s[n - 1] == '.' && (n - 1 == anchor_len(s) || s[n - 2] == '/') {
            parent_end(s, n - 1)
        } else {
            n
        }
    } else {
        n
    }
}

/// The path without its last component. A root has no parent, nor has the
/// empty path; the parent of a single relative name is the empty path.
pub open spec fn parent_spec(s: Seq<char>) -> Option<Seq<char>> {
    match last_component(s, s.len() as int) {
        Some((b, e)) => Some(s.subrange(0, parent_end(s, b))),
        None => if s.len() > 0 && s[0] != '/' {
            Some(Seq::<char>::empty())
        } else {
            None
        },
    }
}

/// `s` without the slashes at its end.
pub open spec fn trim_slashes(s: Seq<char>) -> Seq<char> {
    s.subrange(0, trimmed_end(s, s.len() as int))
}

/// `name` placed under `dir`: one slash between them, whatever `dir` ends in.
pub open spec fn join_spec(dir: Seq<char>, name: Seq<char>) -> Seq<char> {
    trim_slashes(dir) + seq!['/'] + name
}

/// `name` placed under a directory of the local machine: a rooted `name`
/// stands alone, an empty `dir` adds nothing, and a slash is put between the
/// two only where `dir` does not already end in one.
pub open spec fn join_local_spec(dir: Seq<char>, name: Seq<char>) -> Seq<char> {
    if name.len() > 0 && name[0] == '/' {
        name
    } else if dir.len() == 0 || dir.last() == '/' {
        dir + name
    } else {
        dir + seq!['/'] + name
    }
}

/// Bounds of the final name of a path, where it has one.
pub open spec fn file_name_bounds(s: Seq<char>) -> Option<(int, int)> {
    match last_component(s, s.len() as int) {
        Some((b, e)) => if is_dot_dot(s, b, e) {
            None
        } else {
            Some((b, e))
        },
        None => None,
    }
}

/// Position just behind the last `.` of `s[b..n]`, or `b` where it holds none.
pub open spec fn extension_start(s: Seq<char>, b: int, n: int) -> int
    decreases n,
{
    if 0 <= b < n <= s.len() && s[n - 1] != '.' {
        extension_start(s, b, n - 1)
    } else {
        n
    }
}

/// Whether the name `s[b..e]` has an extension: a `.` that is not its first
/// character.
pub open spec fn has_extension(s: Seq<char>, b: int, e: int) -> bool {
    extension_start(s, b, e) > b + 1
}

/// The extension of the final name of a path: what follows the last `.` of
/// the name, unless the name has no `.` or only begins with one.
pub open spec fn extension_spec(s: Seq<char>) -> Option<Seq<char>> {
    match file_name_bounds(s) {
        Some((b, e)) if has_extension(s, b, e) => Some(s.subrange(extension_start(s, b, e), e)),
        _ => None,
    }
}

/// Length of the path up to the end of the stem of its final name: the name
/// without its extension and the `.` before it.
pub open spec fn stem_end(s: Seq<char>, b: int, e: int) -> int {
    if has_extension(s, b, e) {
        extension_start(s, b, e) - 1
    } else {
        e
    }
}

/// Trimming keeps a prefix, and what is left does not end in a slash.
pub proof fn lemma_trimmed_end_bounds(s: Seq<char>, n: int)
    requires
        0 <= n <= s.len(),
    ensures
        0 <= trimmed_end(s, n) <= n,
        trimmed_end(s, n) > 0 ==> s[trimmed_end(s, n) - 1] != '/',
    decreases n,
{
    if 0 < n && s[n - 1] == '/' {
        lemma_trimmed_end_bounds(s, n - 1);
    }
}

/// A segment begins at the start of the path or behind a slash, and holds
/// no slash itself.
pub proof fn lemma_segment_start_bounds(s: Seq<char>, n: int)
    requires
        0 <= n <= s.len(),
    ensures
        0 <= segment_start(s, n) <= n,
        segment_start(s, n) > 0 ==> s[segment_start(s, n) - 1] == '/',
        forall|i: int| segment_start(s, n) <= i < n ==> s[i] != '/',
    decreases n,
{
    if 0 < n && s[n - 1] != '/' {
        lemma_segment_start_bounds(s, n - 1);
    }
}

/// The parent is a prefix of what it was cut from.
pub proof fn lemma_parent_end_bounds(s: Seq<char>, n: int)
    requires
        0 <= n <= s.len(),
    ensures
        0 <= parent_end(s, n) <= n,
    decreases n,
{
    if anchor_len(s) < n {
        if s[n - 1] == '/' {
            lemma_parent_end_bounds(s, n - 1);
        } else if s[n - 1] == '.' && (n - 1 == anchor_len(s) || s[n - 2] == '/') {
            lemma_parent_end_bounds(s, n - 1);
        }
    }
}

/// A component lies inside the path, is not empty and holds no slash.
pub proof fn lemma_last_component_bounds(s: Seq<char>, n: int)
    requires
        0 <= n <= s.len(),
    ensures
        last_component(s, n) matches Some((b, e)) ==> {
            &&& 0 <= b < e <= n
            &&& !is_dot(s, b, e)
            &&& b > 0 ==> s[b - 1] == '/'
            &&& forall|i: int| b <= i < e ==> s[i] != '/'
        },
    decreases n,
{
    lemma_trimmed_end_bounds(s, n);
    let e = trimmed_end(s, n);
    if 0 < e {
        lemma_segment_start_bounds(s, e);
        let b = segment_start(s, e);
        if b < e && is_dot(s, b, e) {
            lemma_last_component_bounds(s, b);
        }
    }
}

fn trimmed_end_at(chars: &Vec<char>, n: usize) -> (e: usize)
    requires
        n <= chars.len(),
    ensures
        e == trimmed_end(chars@, n as int),
        e <= n,
{
    let mut e: usize = n;
    while e > 0 && chars[e - 1] == '/'
        invariant
            e <= n <= chars.len(),
            trimmed_end(chars@, e as int) == trimmed_end(chars@, n as int),
        decreases e,
    {
        e -= 1;
    }
    e
}

fn segment_start_at(chars: &Vec<char>, n: usize) -> (b: usize)
    requires
        n <= chars.len(),
    ensures
        b == segment_start(chars@, n as int),
        b <= n,
{
    let mut b: usize = n;
    while b > 0 && chars[b - 1] != '/'
        invariant
            b <= n <= chars.len(),
            segment_start(chars@, b as int) == segment_start(chars@, n as int),
        decreases b,
    {
        b -= 1;
    }
    b
}

fn last_component_of(chars: &Vec<char>) -> (r: Option<(usize, usize)>)
    ensures
        match last_component(chars@, chars.len() as int) {
            Some((b, e)) => r == Some((b as usize, e as usize)) && 0 <= b < e <= chars.len(),
            None => r is None,
        },
{
    let mut n: usize = chars.len();
    loop
        invariant
            n <= chars.len(),
            last_component(chars@, n as int) == last_component(chars@, chars.len() as int),
        decreases n,
    {
        let e = trimmed_end_at(chars, n);
        if e == 0 {
            return None;
        }
        let b = segment_start_at(chars, e);
        proof {
            lemma_segment_start_bounds(chars@, e as int);
            lemma_trimmed_end_bounds(chars@, n as int);
        }
        if e - b == 1 && chars[b] == '.' {
            n = b;
        } else {
            proof {
                lemma_last_component_bounds(chars@, n as int);
            }
            return Some((b, e));
        }
    }
}

fn parent_end_at(chars: &Vec<char>, n: usize) -> (p: usize)
    requires
        n <= chars.len(),
    ensures
        p == parent_end(chars@, n as int),
        p <= n,
{
    let anchor: usize = if chars.len() == 0 {
        0
    } else if chars[0] == '/' {
        1
    } else if chars[0] == '.' && (chars.len() == 1 || chars[1] == '/') {
        1
    } else {
        0
    };
    let mut p: usize = n;
    while p > anchor && (chars[p - 1] == '/' || (chars[p - 1] == '.' && (p - 1 == anchor
        || chars[p - 2] == '/')))
        invariant
            p <= n <= chars.len(),
            anchor == anchor_len(chars@),
            parent_end(chars@, p as int) == parent_end(chars@, n as int),
        decreases p,
    {
        p -= 1;
    }
    p
}

/// Final name of `path`, or `None` where it has none (the empty path, a
/// root, a path that ends in `..`).
pub fn file_name(path: &str) -> (r: Option<String>)
    ensures
        match file_name_spec(path@) {
            Some(name) => r is Some && r->0@ == name,
            None => r is None,
        },
{
    let chars = chars_of(path);
    match last_component_of(&chars) {
        None => None,
        Some((b, e)) => {
            if e - b == 2 && chars[b] == '.' && chars[b + 1] == '.' {
                None
            } else {
                Some(path.substring_char(b, e).to_owned())
            }
        },
    }
}

/// `path` without its last component, or `None` where it has no parent.
pub fn parent(path: &str) -> (r: Option<String>)
    ensures
        match parent_spec(path@) {
            Some(dir) => r is Some && r->0@ == dir,
            None => r is None,
        },
{
    let chars = chars_of(path);
    match last_component_of(&chars) {
        None => {
            if chars.len() > 0 && chars[0] != '/' {
                Some(String::new())
            } else {
                None
            }
        },
        Some((b, e)) => {
            let p = parent_end_at(&chars, b);
            Some(path.substring_char(0, p).to_owned())
        },
    }
}

/// `path` without the slashes at its end.
pub fn trim_trailing_slashes(path: &str) -> (r: String)
    ensures
        r@ == trim_slashes(path@),
{
    let chars = chars_of(path);
    let e = trimmed_end_at(&chars, chars.len());
    path.substring_char(0, e).to_owned()
}

/// `name` under `dir`, with exactly one slash between the two.
pub fn join(dir: &str, name: &str) -> (r: String)
    ensures
        r@ == join_spec(dir@, name@),
{
    let mut out = trim_trailing_slashes(dir);
    proof {
        reveal_strlit("/");
    }
    out.append("/");
    out.append(name);
    assert("/"@ =~= seq!['/']);
    out
}

/// `name` under the local directory `dir`.
pub fn join_local(dir: &str, name: &str) -> (r: String)
    ensures
        r@ == join_local_spec(dir@, name@),
{
    let d = chars_of(dir);
    let n = chars_of(name);
    if n.len() > 0 && n[0] == '/' {
        return name.to_owned();
    }
    let mut out = dir.to_owned();
    if d.len() > 0 && d[d.len() - 1] != '/' {
        proof {
            reveal_strlit("/");
        }
        out.append("/");
        assert("/"@ =~= seq!['/']);
    }
    out.append(name);
    out
}

/// Bounds of the final name of the path held in `chars`.
pub(crate) fn file_name_bounds_of(chars: &Vec<char>) -> (r: Option<(usize, usize)>)
    ensures
        match file_name_bounds(chars@) {
            Some((b, e)) => r == Some((b as usize, e as usize)) && 0 <= b < e <= chars.len(),
            None => r is None,
        },
{
    match last_component_of(chars) {
        None => None,
        Some((b, e)) => {
            if e - b == 2 && chars[b] == '.' && chars[b + 1] == '.' {
                None
            } else {
                Some((b, e))
            }
        },
    }
}

/// Where the extension of the name `chars[b..e]` begins.
pub(crate) fn extension_start_at(chars: &Vec<char>, b: usize, e: usize) -> (k: usize)
    requires
        b <= e <= chars.len(),
    ensures
        k == extension_start(chars@, b as int, e as int),
        b <= k <= e,
{
    let mut k: usize = e;
    while k > b && chars[k - 1] != '.'
        invariant
            b <= k <= e <= chars.len(),
            extension_start(chars@, b as int, k as int) == extension_start(
                chars@,
                b as int,
                e as int,
            ),
        decreases k,
    {
        k -= 1;
    }
    k
}

/// The extension of the final name of `path`, if it has one.
pub fn extension(path: &str) -> (r: Option<String>)
    ensures
        match extension_spec(path@) {
            Some(ext) => r is Some && r->0@ == ext,
            None => r is None,
        },
{
    let chars = chars_of(path);
    match file_name_bounds_of(&chars) {
        None => None,
        Some((b, e)) => {
            let k = extension_start_at(&chars, b, e);
            if k - b > 1 {
                Some(path.substring_char(k, e).to_owned())
            } else {
                None
            }
        },
    }
}

} // verus!
