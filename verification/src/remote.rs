//! Remote path syntax: home-directory expansion and the guards around it.

use vstd::prelude::*;
use vstd::string::*;

use crate::text::{chars_of, starts_with, str_eq, trim, trim_spec};

verus! {

/// The canonical form of a remote path as the user wrote it.
///
/// A leading `~` (alone, or followed by `/`) stands for the remote home
/// directory, and so do `.` and `./`. Every other path is kept as it is.
pub open spec fn resolve_spec(raw: Seq<char>, home: Seq<char>) -> Seq<char> {
    if raw.len() > 0 && raw[0] == '~' && (raw.len() == 1 || raw[1] == '/') {
        home + raw.skip(1)
    } else if raw == seq!['.'] || raw == seq!['.', '/'] {
        home
    } else {
        raw
    }
}

/// Rewrites a user-supplied remote path into its canonical form.
pub fn resolve(raw: &str, remote_home: &str) -> (r: String)
    ensures
        r@ == resolve_spec(raw@, remote_home@),
{
    let chars = chars_of(raw);
    let n = chars.len();
    if n > 0 && chars[0] == '~' && (n == 1 || chars[1] == '/') {
        let mut out = remote_home.to_owned();
        out.append(raw.substring_char(1, n));
        assert(raw@.subrange(1, n as int) == raw@.skip(1));
        out
    } else if (n == 1 && chars[0] == '.') || (n == 2 && chars[0] == '.' && chars[1] == '/') {
        assert(raw@ =~= seq!['.'] || raw@ =~= seq!['.', '/']);
        remote_home.to_owned()
    } else {
        assert(raw@ != seq!['.'] && raw@ != seq!['.', '/']) by {
            if raw@ == seq!['.'] {
                assert(raw@.len() == 1 && raw@[0] == '.');
            }
            if raw@ == seq!['.', '/'] {
                assert(raw@.len() == 2 && raw@[0] == '.' && raw@[1] == '/');
            }
        }
        raw.to_owned()
    }
}

/// A remote path that lies under `/home/` but not under the remote home
/// directory: most likely a local path that a shell expanded.
pub open spec fn looks_shell_expanded_spec(raw: Seq<char>, home: Seq<char>) -> bool {
    "/home/"@.is_prefix_of(raw) && !home.is_prefix_of(raw)
}

/// Whether `raw` deserves the advisory warning about shell-expanded paths.
/// The answer never blocks a transfer.
pub fn looks_shell_expanded(raw: &str, remote_home: &str) -> (r: bool)
    ensures
        r == looks_shell_expanded_spec(raw@, remote_home@),
{
    starts_with(raw, "/home/") && !starts_with(raw, remote_home)
}

/// A remote path under `/Users/`, the home-directory root of another kind of
/// machine: most likely a local path. Such a path only earns a warning.
pub open spec fn is_foreign_home_path_spec(raw: Seq<char>) -> bool {
    "/Users/"@.is_prefix_of(raw)
}

/// Whether `raw` lies under the home-directory root of another kind of
/// machine.
pub fn is_foreign_home_path(raw: &str) -> (r: bool)
    ensures
        r == is_foreign_home_path_spec(raw@),
{
    starts_with(raw, "/Users/")
}

/// The directories that are never created on the remote side.
pub open spec fn is_system_dir_spec(path: Seq<char>) -> bool {
    ||| path == "/"@
    ||| path == "/usr"@
    ||| path == "/var"@
    ||| path == "/etc"@
    ||| path == "/bin"@
    ||| path == "/sbin"@
    ||| path == "/lib"@
    ||| path == "/opt"@
    ||| path == "/Users"@
}

/// Whether `path` is one of the protected system directories.
pub fn is_system_dir(path: &str) -> (r: bool)
    ensures
        r == is_system_dir_spec(path@),
{
    str_eq(path, "/") || str_eq(path, "/usr") || str_eq(path, "/var") || str_eq(path, "/etc")
        || str_eq(path, "/bin") || str_eq(path, "/sbin") || str_eq(path, "/lib") || str_eq(
        path,
        "/opt",
    ) || str_eq(path, "/Users")
}

/// The home directory assumed for `username` when the remote side names none.
pub open spec fn default_home_spec(username: Seq<char>) -> Seq<char> {
    "/home/"@ + username
}

/// The home directory assumed for `username` when the remote side names none.
pub fn default_home(username: &str) -> (r: String)
    ensures
        r@ == default_home_spec(username@),
{
    let mut out = "/home/".to_owned();
    out.append(username);
    out
}

/// The remote home directory, given what the remote side printed when asked
/// for it (`None` when the question failed).
pub open spec fn remote_home_spec(answer: Option<Seq<char>>, username: Seq<char>) -> Seq<char> {
    match answer {
        Some(text) => if trim_spec(text).len() > 0 {
            trim_spec(text)
        } else {
            default_home_spec(username)
        },
        None => default_home_spec(username),
    }
}

/// Chooses the remote home directory: the answer of the remote side without
/// surrounding white space, or the default for `username` when there is no
/// answer or an empty one.
pub fn remote_home(answer: Option<&str>, username: &str) -> (r: String)
    ensures
        r@ == remote_home_spec(
            match answer {
                Some(text) => Some(text@),
                None => None,
            },
            username@,
        ),
{
    match answer {
        Some(text) => {
            let home = trim(text);
            if home.as_str().unicode_len() > 0 {
                home
            } else {
                default_home(username)
            }
        },
        None => default_home(username),
    }
}

/// Whether a remote path as the user wrote it looks like a path of the local
/// machine.
pub open spec fn looks_local_spec(raw: Seq<char>, home: Seq<char>) -> bool {
    is_foreign_home_path_spec(raw) || looks_shell_expanded_spec(raw, home)
}

/// Takes a remote path as the user wrote it: returns its canonical form, and
/// whether it looks like a path of the local machine.
///
/// The flag is advice for a warning and nothing more: every path is
/// resolved, and none is refused.
pub fn check_remote_path(raw: &str, remote_home: &str) -> (r: (String, bool))
    ensures
        r.0@ == resolve_spec(raw@, remote_home@),
        r.1 == (is_foreign_home_path_spec(raw@) || looks_shell_expanded_spec(
            raw@,
            remote_home@,
        )),
        r.1 == looks_local_spec(raw@, remote_home@),
{
    let warn = is_foreign_home_path(raw) || looks_shell_expanded(raw, remote_home);
    (resolve(raw, remote_home), warn)
}

} // verus!
