//! Where credentials are looked for, in what order, and which profile name is used.
use crate::credential::{
    profile_fields, profile_is_empty, CredentialError, CredentialProfile, CredentialSource,
    ResolvedCredentials,
};
use crate::manifest::clone_opt;
use crate::text::{owned, str_eq};
use vstd::prelude::*;

verus! {

/// The name of the profile to use: the command-line profile, else the repository's,
/// else the `WMGR_PROFILE` environment value, else `default`.
pub open spec fn profile_name_spec(cli: Option<Seq<char>>, repo: Option<Seq<char>>, env: Option<Seq<char>>) -> Seq<char> {
    match cli {
        Some(p) => p,
        None => match repo {
            Some(p) => p,
            None => match env {
                Some(p) => p,
                None => "default"@,
            },
        },
    }
}

/// The view of an optional text.
pub open spec fn opt_str_view(o: Option<&str>) -> Option<Seq<char>> {
    match o {
        Some(s) => Some(s@),
        None => None,
    }
}

/// The index of the first entry of a credential file named `name`.
pub open spec fn first_profile_named(file: Seq<(String, CredentialProfile)>, name: Seq<char>, i: int) -> bool {
    0 <= i < file.len() && file[i].0@ == name && forall|j: int| 0 <= j < i ==> file[j].0@ != name
}

/// A copy of a profile with equal fields.
pub fn copy_profile(p: &CredentialProfile) -> (r: CredentialProfile)
    ensures
        profile_fields(r) == profile_fields(*p),
{
    let r = CredentialProfile {
        username: clone_opt(&p.username),
        password: clone_opt(&p.password),
        token: clone_opt(&p.token),
        aws_access_key_id: clone_opt(&p.aws_access_key_id),
        aws_secret_access_key: clone_opt(&p.aws_secret_access_key),
        aws_session_token: clone_opt(&p.aws_session_token),
        gdrive_client_id: clone_opt(&p.gdrive_client_id),
        gdrive_client_secret: clone_opt(&p.gdrive_client_secret),
    };
    assert(profile_fields(r) =~= profile_fields(*p));
    r
}

/// The credential sources, tried in order of priority.
pub struct CredentialStore;

impl CredentialStore {
    /// The profile name to use (see `profile_name_spec`); `env_profile` is the value of
    /// `WMGR_PROFILE`, if set.
    pub fn resolve_profile_name(cli_profile: Option<&str>, repo_profile: Option<&str>, env_profile: Option<&str>) -> (r: String)
        ensures
            r@ == profile_name_spec(opt_str_view(cli_profile), opt_str_view(repo_profile), opt_str_view(env_profile)),
    {
        if let Some(p) = cli_profile {
            return owned(p);
        }
        if let Some(p) = repo_profile {
            return owned(p);
        }
        if let Some(p) = env_profile {
            return owned(p);
        }
        owned("default")
    }

    /// The profile of a parsed credential file (profile name and profile, in file
    /// order) named `profile_name`, or `ProfileNotFound` when there is none.
    pub fn lookup_profile(file: &Vec<(String, CredentialProfile)>, profile_name: &str) -> (r: Result<CredentialProfile, CredentialError>)
        ensures
            match r {
                Ok(p) => exists|i: int| first_profile_named(file@, profile_name@, i)
                    && profile_fields(p) == profile_fields(#[trigger] file@[i].1),
                Err(e) => e matches CredentialError::ProfileNotFound(n) && n@ == profile_name@
                    && forall|i: int| 0 <= i < file@.len() ==> (#[trigger] file@[i]).0@ != profile_name@,
            },
    {
        let mut i: usize = 0;
        while i < file.len()
            invariant
                i <= file@.len(),
                forall|j: int| 0 <= j < i ==> (#[trigger] file@[j]).0@ != profile_name@,
            decreases file.len() - i,
        {
            if str_eq(file[i].0.as_str(), profile_name) {
                let p = copy_profile(&file[i].1);
                assert(first_profile_named(file@, profile_name@, i as int));
                return Ok(p);
            }
            i = i + 1;
        }
        Err(CredentialError::ProfileNotFound(owned(profile_name)))
    }

    /// The credentials a source yields: none when the source gave no profile or an
    /// empty one, else the profile attributed to the source.
    pub fn accept_level(profile_name: &str, source: CredentialSource, candidate: Option<CredentialProfile>) -> (r: Option<ResolvedCredentials>)
        ensures
            match candidate {
                Some(p) => if profile_is_empty(p) {
                    r is None
                } else {
                    r matches Some(c) && profile_fields(c.profile) == profile_fields(p)
                        && c.source == source && c.profile_name@ == profile_name@
                },
                None => r is None,
            },
    {
        match candidate {
            Some(p) => {
                if p.is_empty() {
                    None
                } else {
                    Some(ResolvedCredentials { profile: p, source, profile_name: owned(profile_name) })
                }
            },
            None => None,
        }
    }
}

/// The profile a lower level yields, when it yields a non-empty one: the level was
/// consulted and read without error.
pub open spec fn level_profile(c: Option<Result<CredentialProfile, CredentialError>>) -> Option<CredentialProfile> {
    match c {
        Some(Ok(p)) => if profile_is_empty(p) { None } else { Some(p) },
        _ => None,
    }
}

/// Where credentials come from: the environment when it sets anything, else the file
/// named on the command line, else the default credential file, else the credential
/// helper, each when it yields a non-empty profile; with none of them, no
/// credentials.
pub open spec fn resolution_source(
    env: CredentialProfile,
    cli_file: Option<Result<CredentialProfile, CredentialError>>,
    default_file: Option<Result<CredentialProfile, CredentialError>>,
    helper: Option<Result<CredentialProfile, CredentialError>>,
) -> (CredentialSource, Option<CredentialProfile>) {
    if !profile_is_empty(env) {
        (CredentialSource::EnvVar, Some(env))
    } else if level_profile(cli_file) is Some {
        (CredentialSource::CliFlag, level_profile(cli_file))
    } else if level_profile(default_file) is Some {
        (CredentialSource::ProfileFile, level_profile(default_file))
    } else if level_profile(helper) is Some {
        (CredentialSource::CredentialHelper, level_profile(helper))
    } else {
        (CredentialSource::Manifest, None)
    }
}

impl CredentialStore {
    /// The credentials for a profile from what each level gave: the profile read from
    /// the environment, and the outcome of reading the profile from the command-line
    /// credential file, from the default credential file and from the credential
    /// helper (`None` for a level that is not configured or whose file does not exist).
    /// The first level that yields a non-empty profile wins (see `resolution_source`).
    pub fn resolve_credentials(
        profile_name: &str,
        env: CredentialProfile,
        cli_file: Option<Result<CredentialProfile, CredentialError>>,
        default_file: Option<Result<CredentialProfile, CredentialError>>,
        helper: Option<Result<CredentialProfile, CredentialError>>,
    ) -> (r: ResolvedCredentials)
        ensures
            r.profile_name@ == profile_name@,
            r.source == resolution_source(env, cli_file, default_file, helper).0,
            match resolution_source(env, cli_file, default_file, helper).1 {
                Some(p) => profile_fields(r.profile) == profile_fields(p),
                None => profile_is_empty(r.profile),
            },
    {
        if !env.is_empty() {
            return ResolvedCredentials { profile: env, source: CredentialSource::EnvVar, profile_name: owned(profile_name) };
        }
        if let Some(found) = Self::accept_level(profile_name, CredentialSource::CliFlag, Self::level_ok(cli_file)) {
            return found;
        }
        if let Some(found) = Self::accept_level(profile_name, CredentialSource::ProfileFile, Self::level_ok(default_file)) {
            return found;
        }
        if let Some(found) = Self::accept_level(profile_name, CredentialSource::CredentialHelper, Self::level_ok(helper)) {
            return found;
        }
        ResolvedCredentials::empty(profile_name)
    }

    /// The profile of a level that was read without error.
    fn level_ok(c: Option<Result<CredentialProfile, CredentialError>>) -> (r: Option<CredentialProfile>)
        ensures
            r == (match c {
                Some(Ok(p)) => Some(p),
                _ => None::<CredentialProfile>,
            }),
    {
        match c {
            Some(Ok(p)) => Some(p),
            _ => None,
        }
    }
}

/// Credentials never come from a level below one that yields a non-empty profile,
/// and a source other than none always comes with a non-empty profile.
pub proof fn law_highest_nonempty_level_wins(
    env: CredentialProfile,
    cli_file: Option<Result<CredentialProfile, CredentialError>>,
    default_file: Option<Result<CredentialProfile, CredentialError>>,
    helper: Option<Result<CredentialProfile, CredentialError>>,
)
    ensures
        !profile_is_empty(env) ==> resolution_source(env, cli_file, default_file, helper).0 == CredentialSource::EnvVar,
        profile_is_empty(env) && level_profile(cli_file) is Some
            ==> resolution_source(env, cli_file, default_file, helper).0 == CredentialSource::CliFlag,
        resolution_source(env, cli_file, default_file, helper).1 matches Some(p) ==> !profile_is_empty(p),
        resolution_source(env, cli_file, default_file, helper).1 is None
            <==> (profile_is_empty(env) && level_profile(cli_file) is None && level_profile(default_file) is None
                && level_profile(helper) is None),
{
}

} // verus!
