//! Tilde expansion of a user-supplied path.
//!
//! A leading `~` component stands for the invoking user's home directory.
//! [`expand_tilde`] performs the substitution given a home directory;
//! [`resolve_path`] obtains the home directory from the system first and
//! fails only when one is needed but cannot be determined.

use vstd::prelude::*;

verus! {

/// True when the path's first component is exactly `~`, so that resolving
/// it requires knowing the home directory: the path is `~` itself or
/// begins with `~/`. A path such as `~abc` names no home directory.
pub open spec fn needs_home(path: Seq<char>) -> bool {
    (path.len() == 1 && path[0] == '~') || (path.len() >= 2 && path[0] == '~' && path[1] == '/')
}

/// The home directory that is the filesystem root: the single separator.
pub open spec fn root_path() -> Seq<char> {
    seq!['/']
}

/// What tilde expansion returns for `path` under home directory `home`:
/// `~` alone becomes `home`; a path beginning `~/` keeps everything after
/// the `~` and prefixes `home`, except that a root home contributes no
/// extra separator; any other path is returned unchanged.
pub open spec fn expanded(path: Seq<char>, home: Seq<char>) -> Seq<char> {
    if path.len() == 1 && path[0] == '~' {
        home
    } else if path.len() >= 2 && path[0] == '~' && path[1] == '/' {
        if home == root_path() {
            path.skip(1)
        } else {
            home + path.skip(1)
        }
    } else {
        path
    }
}

/// Expands a leading `~` in `path` to the given `home` directory.
pub fn expand_tilde(path: &str, home: &str) -> (r: String)
    ensures
        r@ == expanded(path@, home@),
{
    let n = path.unicode_len();
    if n == 0 || path.get_char(0) != '~' {
        return path.to_owned();
    }
    if n == 1 {
        return home.to_owned();
    }
    if path.get_char(1) != '/' {
        return path.to_owned();
    }
    let rest = path.substring_char(1, n);
    let home_len = home.unicode_len();
    if home_len == 1 && home.get_char(0) == '/' {
        proof {
            assert(home@ =~= root_path());
            assert(rest@ =~= path@.skip(1));
        }
        rest.to_owned()
    } else {
        proof {
            assert(home@ != root_path());
        }
        let r = home.to_owned().concat(rest);
        proof {
            assert(r@ =~= home@ + path@.skip(1));
        }
        r
    }
}

/// Relies on `dirs::home_dir`: the current user's home directory, if the
/// system can determine one. The answer depends on the environment, so
/// nothing is stated of the value; a home directory that is not valid
/// Unicode counts as undeterminable.
#[verifier::external_body]
fn home_dir_string() -> Option<String> {
    dirs::home_dir().and_then(|h| h.to_str().map(|s| s.to_owned()))
}

/// Resolves a user-supplied path, expanding a leading `~` component to the
/// current user's home directory. Fails (returns `None`) exactly when the
/// path needs a home directory and none can be determined; a path that
/// needs none is returned unchanged without consulting the system.
pub fn resolve_path(path: &str) -> (r: Option<String>)
    ensures
        !needs_home(path@) ==> (r matches Some(s) && s@ == path@),
        r matches Some(s) ==> exists|home: Seq<char>| s@ == #[trigger] expanded(path@, home),
        r is None ==> needs_home(path@),
{
    let n = path.unicode_len();
    let tilde_first = n >= 1 && path.get_char(0) == '~';
    let needs = tilde_first && (n == 1 || path.get_char(1) == '/');
    if !needs {
        let r = path.to_owned();
        proof {
            assert(r@ == expanded(path@, Seq::<char>::empty()));
        }
        return Some(r);
    }
    match home_dir_string() {
        None => None,
        Some(home) => {
            let e = expand_tilde(path, home.as_str());
            Some(e)
        },
    }
}

/// A path that does not begin with a tilde is expanded to itself,
/// whatever the home directory is.
pub proof fn lemma_no_tilde_unchanged(path: Seq<char>, home: Seq<char>)
    requires
        path.len() == 0 || path[0] != '~',
    ensures
        expanded(path, home) == path,
{
}

/// Expanding the path `~` alone yields the home directory unchanged.
pub proof fn lemma_tilde_alone_is_home(home: Seq<char>)
    ensures
        expanded(seq!['~'], home) == home,
{
}

/// When the home directory is the filesystem root, expanding a `~/` path
/// drops the tilde and nothing more, so the single root separator is not
/// doubled: the result starts with the one separator the input had.
pub proof fn lemma_root_home_drops_tilde(path: Seq<char>)
    requires
        path.len() >= 2,
        path[0] == '~',
        path[1] == '/',
    ensures
        expanded(path, root_path()) == path.skip(1),
        expanded(path, root_path())[0] == '/',
{
}

} // verus!
