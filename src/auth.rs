//! Choice of the credentials offered to the remote.
use vstd::prelude::*;
use vstd::string::*;
use crate::config::GitSyncConfig;
use crate::text::{char_range, chars_of, has_prefix, join_path, path_join, same_text, string_of};

verus! {

/// The credentials offered to the remote for one authentication request.
#[derive(Debug, Clone)]
pub enum AuthStrategy {
    /// Default, anonymous credentials.
    NoAuth,
    /// A user name and password in plain text.
    Basic { username: String, password: String },
    /// A private key file for SSH.
    SshKey { username: String, key_path: String },
    /// Whatever key the SSH agent holds.
    SshAgent { username: String },
}

/// The user name used for SSH when the remote URL names none.
pub open spec fn ssh_user_spec(username_from_url: Option<Seq<char>>) -> Seq<char> {
    match username_from_url {
        Some(u) => u,
        None => "git"@,
    }
}

/// A key path with a leading `~/` put under the home directory.
pub open spec fn expand_home_spec(path: Seq<char>, home: Option<Seq<char>>) -> Seq<char> {
    if has_prefix(path, "~/"@) && home is Some {
        path_join(home->0, path.subrange(2, path.len() as int))
    } else {
        path
    }
}

/// The configured key path, if one is set and not empty.
pub open spec fn configured_key(config: GitSyncConfig) -> Option<Seq<char>> {
    match config.ssh_key_path {
        Some(p) => if p@.len() > 0 { Some(p@) } else { None },
        None => None,
    }
}

/// The key file to look for, given the home directory.
pub open spec fn key_candidate_spec(config: GitSyncConfig, home: Option<Seq<char>>) -> Option<Seq<char>> {
    match configured_key(config) {
        Some(p) => Some(expand_home_spec(p, home)),
        None => None,
    }
}

/// The strategy chosen for a configuration, an SSH user name, the key file
/// to look for (see [`key_candidate`]) and whether it exists.
pub open spec fn auth_spec(
    config: GitSyncConfig,
    username_from_url: Option<Seq<char>>,
    key_path: Option<Seq<char>>,
    key_exists: bool,
) -> AuthView {
    if config.auth_type@ == "basic"@ {
        match (config.username, config.password) {
            (Some(u), Some(p)) => AuthView::Basic { username: u@, password: p@ },
            _ => AuthView::NoAuth,
        }
    } else if config.auth_type@ == "ssh"@ {
        let user = ssh_user_spec(username_from_url);
        match key_path {
            Some(k) => if key_exists {
                AuthView::SshKey { username: user, key_path: k }
            } else {
                AuthView::SshAgent { username: user }
            },
            None => AuthView::SshAgent { username: user },
        }
    } else {
        AuthView::NoAuth
    }
}

/// An `AuthStrategy` as values.
pub enum AuthView {
    NoAuth,
    Basic { username: Seq<char>, password: Seq<char> },
    SshKey { username: Seq<char>, key_path: Seq<char> },
    SshAgent { username: Seq<char> },
}

impl View for AuthStrategy {
    type V = AuthView;

    open spec fn view(&self) -> AuthView {
        match self {
            AuthStrategy::NoAuth => AuthView::NoAuth,
            AuthStrategy::Basic { username, password } => AuthView::Basic {
                username: username@,
                password: password@,
            },
            AuthStrategy::SshKey { username, key_path } => AuthView::SshKey {
                username: username@,
                key_path: key_path@,
            },
            AuthStrategy::SshAgent { username } => AuthView::SshAgent { username: username@ },
        }
    }
}

/// The view of an optional string.
pub open spec fn opt_view(o: Option<String>) -> Option<Seq<char>> {
    match o {
        Some(s) => Some(s@),
        None => None,
    }
}

/// Puts a key path that starts with `~/` under the home directory.
pub fn expand_home(path: &str, home: &Option<String>) -> (r: String)
    ensures
        r@ == expand_home_spec(path@, opt_view(*home)),
{
    let v = chars_of(path);
    let tilde = v.len() >= 2 && v[0] == '~' && v[1] == '/';
    proof {
        reveal_strlit("~/");
        if tilde {
            assert(v@.subrange(0, 2) =~= "~/"@);
        }
        if v@.len() >= 2 && v@.subrange(0, 2) == "~/"@ {
            assert(v@[0] == v@.subrange(0, 2)[0]);
            assert(v@[1] == v@.subrange(0, 2)[1]);
        }
    }
    match home {
        Some(h) => {
            if tilde {
                let rest = string_of(char_range(&v, 2, v.len()).as_slice());
                join_path(h.as_str(), rest.as_str())
            } else {
                String::from_str(path)
            }
        },
        None => String::from_str(path),
    }
}

/// The key file to look for under a configuration, given the home directory.
pub fn key_candidate(config: &GitSyncConfig, home: &Option<String>) -> (r: Option<String>)
    ensures
        opt_view(r) == key_candidate_spec(*config, opt_view(*home)),
{
    match &config.ssh_key_path {
        Some(p) => {
            if p.as_str().unicode_len() > 0 {
                Some(expand_home(p.as_str(), home))
            } else {
                None
            }
        },
        None => None,
    }
}

/// Chooses the credentials for one authentication request. `key_path` is
/// the key file to look for, as [`ssh_key_path_for`] gives it, and
/// `key_exists` whether that file exists.
///
/// `basic` offers the user name and password when both are set and default
/// credentials otherwise; `ssh` offers the key file when it exists and the
/// SSH agent otherwise, as the user named in the URL or `git`; any other type
/// offers default credentials.
pub fn resolve_auth(
    config: &GitSyncConfig,
    username_from_url: &Option<String>,
    key_path: &Option<String>,
    key_exists: bool,
) -> (r: AuthStrategy)
    ensures
        r@ == auth_spec(*config, opt_view(*username_from_url), opt_view(*key_path), key_exists),
{
    if same_text(config.auth_type.as_str(), "basic") {
        match (&config.username, &config.password) {
            (Some(u), Some(p)) => AuthStrategy::Basic { username: u.clone(), password: p.clone() },
            _ => AuthStrategy::NoAuth,
        }
    } else if same_text(config.auth_type.as_str(), "ssh") {
        let user = match username_from_url {
            Some(u) => u.clone(),
            None => String::from_str("git"),
        };
        match key_path {
            Some(k) => {
                if key_exists {
                    AuthStrategy::SshKey { username: user, key_path: k.clone() }
                } else {
                    AuthStrategy::SshAgent { username: user }
                }
            },
            None => AuthStrategy::SshAgent { username: user },
        }
    } else {
        AuthStrategy::NoAuth
    }
}

/// The key file to look for under a configuration, with `~/` put under the
/// user's home directory. It is `None` exactly when no key path is set.
pub fn ssh_key_path_for(config: &GitSyncConfig) -> (r: Option<String>)
    ensures
        r is Some <==> configured_key(*config) is Some,
{
    let home = crate::config::home_directory();
    key_candidate(config, &home)
}

} // verus!
