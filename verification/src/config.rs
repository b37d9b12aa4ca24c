//! What the proxy is started with.

use vstd::prelude::*;

verus! {

/// The address to listen on, and the files that hold the two private keys.
#[derive(Clone, Debug)]
pub struct Config {
    pub inbound_server_address: String,
    pub inbound_server_identity_file: String,
    pub outbound_client_identity_file: String,
}

/// Whether a path is in the home directory: it is `~` alone, or begins with `~/`.
pub open spec fn is_in_home(path: Seq<char>) -> bool {
    &&& path.len() > 0
    &&& path[0] == '~'
    &&& path.len() > 1 ==> path[1] == '/'
}

/// Whether a path begins with `~\`, which is in the home directory on Windows and not elsewhere.
pub open spec fn is_in_windows_home(path: Seq<char>) -> bool {
    path.len() > 1 && path[0] == '~' && path[1] == '\\'
}

/// A path with the home directory, where there is one, in place of its first character.
pub open spec fn in_home(path: Seq<char>, home: Option<Seq<char>>) -> Seq<char> {
    match home {
        Some(home) => home + path.skip(1),
        None => path,
    }
}

/// Whether a path is expanded to another one: a path in the home directory has the directory in
/// place of its `~`, and any other path stays.
pub open spec fn expands_to(
    path: Seq<char>,
    home: Option<Seq<char>>,
    expanded: Seq<char>,
) -> bool {
    if is_in_home(path) {
        expanded == in_home(path, home)
    } else if is_in_windows_home(path) {
        expanded == path || expanded == in_home(path, home)
    } else {
        expanded == path
    }
}

/// The home directory, where there is one.
pub open spec fn home_view(home: Option<&str>) -> Option<Seq<char>> {
    match home {
        Some(home) => Some(home@),
        None => None,
    }
}

/// Puts the home directory in place of a `~` at the start of a path.
///
/// Trusted: `shellexpand::tilde_with_context`, given a function that returns the home directory,
/// puts that directory in place of the `~` of a path that is `~` or begins with `~/`, and leaves
/// such a path as it is where there is no home directory. It leaves any other path as it is, but
/// for one that begins with `~\`, which it expands on Windows alone; which of the two happens is
/// not stated.
#[verifier::external_body]
fn expand_tilde(path: &str, home: Option<&str>) -> (expanded: String)
    ensures
        expands_to(path@, home_view(home), expanded@),
{
    shellexpand::tilde_with_context(path, || home).into_owned()
}

impl Config {
    /// The path of the private key with which the proxy meets its clients.
    pub fn inbound_server_identity_path(&self, home: Option<&str>) -> (path: String)
        ensures
            expands_to(self.inbound_server_identity_file@, home_view(home), path@),
    {
        expand_tilde(&self.inbound_server_identity_file, home)
    }

    /// The path of the private key with which the proxy meets the servers.
    pub fn outbound_client_identity_path(&self, home: Option<&str>) -> (path: String)
        ensures
            expands_to(self.outbound_client_identity_file@, home_view(home), path@),
    {
        expand_tilde(&self.outbound_client_identity_file, home)
    }
}

/// A path in the home directory is the home directory with the rest of the path, where there is a
/// home directory; without one, and where a path does not begin with a `~` that stands alone or
/// before a separator, it stays.
pub proof fn law_home_takes_the_place_of_the_tilde(
    path: Seq<char>,
    home: Seq<char>,
    rest: Seq<char>,
    expanded: Seq<char>,
    given: &str,
)
    ensures
        home_view(Some(given)) == Some(given@),
        home_view(None) is None,
        path == seq!['~'] + rest && (rest.len() == 0 || rest[0] == '/') ==> {
            &&& expands_to(path, Some(home), expanded) <==> expanded == home + rest
            &&& expands_to(path, None, expanded) <==> expanded == path
        },
        path.len() == 0 || path[0] != '~' || (path.len() > 1 && path[1] != '/' && path[1] != '\\')
            ==> {
            &&& expands_to(path, Some(home), expanded) <==> expanded == path
            &&& expands_to(path, None, expanded) <==> expanded == path
        },
        expands_to(path, None, expanded) ==> expanded == path,
{
    if path == seq!['~'] + rest {
        assert(path.skip(1) =~= rest);
    }
}

} // verus!
