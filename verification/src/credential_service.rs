//! Credentials for a manifest repository: the profile name to ask for, and the
//! manifest's own username and password as the last fallback.
use crate::credential::{merge_field, profile_fields, CredentialError, CredentialProfile, ResolvedCredentials};
use crate::credential_store::{opt_str_view, profile_name_spec, resolution_source, CredentialStore};
use crate::manifest::{clone_opt, clone_opt_ref, deref_opt, effective_auth, ManifestRepo};
use vstd::prelude::*;

verus! {

/// Credential resolution settings given on the command line.
pub struct CredentialService {
    cli_profile: Option<String>,
    cli_credential_file: Option<String>,
}

/// The view of an optional string.
pub open spec fn opt_string_view(o: Option<String>) -> Option<Seq<char>> {
    match o {
        Some(s) => Some(s@),
        None => None,
    }
}

impl CredentialService {
    /// The command-line profile, as a sequence of characters.
    pub closed spec fn profile_setting(self) -> Option<Seq<char>> {
        opt_string_view(self.cli_profile)
    }

    /// The command-line credential file path, as a sequence of characters.
    pub closed spec fn file_setting(self) -> Option<Seq<char>> {
        opt_string_view(self.cli_credential_file)
    }

    /// A service with the given command-line profile and credential file.
    pub fn new(cli_profile: Option<String>, cli_credential_file: Option<String>) -> (r: Self)
        ensures
            r.profile_setting() == opt_string_view(cli_profile),
            r.file_setting() == opt_string_view(cli_credential_file),
    {
        CredentialService { cli_profile, cli_credential_file }
    }

    /// The command-line profile.
    pub fn cli_profile(&self) -> (r: Option<&str>)
        ensures
            opt_str_view(r) == self.profile_setting(),
    {
        match &self.cli_profile {
            Some(p) => Some(p.as_str()),
            None => None,
        }
    }

    /// The command-line credential file path.
    pub fn cli_credential_file(&self) -> (r: Option<&str>)
        ensures
            opt_str_view(r) == self.file_setting(),
    {
        match &self.cli_credential_file {
            Some(p) => Some(p.as_str()),
            None => None,
        }
    }

    /// The profile name to resolve for a repository: the command-line profile, else the
    /// repository's profile, else `env_profile` (the `WMGR_PROFILE` value), else `default`.
    pub fn profile_name_for(&self, repo: &ManifestRepo, env_profile: Option<&str>) -> (r: String)
        ensures
            r@ == profile_name_spec(self.profile_setting(), opt_string_view(repo.profile), opt_str_view(env_profile)),
    {
        let repo_profile = match &repo.profile {
            Some(p) => Some(p.as_str()),
            None => None,
        };
        CredentialStore::resolve_profile_name(self.cli_profile(), repo_profile, env_profile)
    }

    /// The resolved credentials with the manifest's effective username and password
    /// filling the username and password when they are still unset; everything else is
    /// kept.
    pub fn with_manifest_fallback(resolved: ResolvedCredentials, repo: &ManifestRepo) -> (r: ResolvedCredentials)
        ensures
            profile_fields(r.profile) == profile_fields(resolved.profile)
                .update(0, merge_field(resolved.profile.username, effective_auth(*repo).0))
                .update(1, merge_field(resolved.profile.password, effective_auth(*repo).1)),
            r.source == resolved.source,
            r.profile_name == resolved.profile_name,
    {
        let ghost before = resolved;
        let (manifest_username, manifest_password) = repo.get_effective_auth();
        let mut resolved = resolved;
        if resolved.profile.username.is_none() {
            resolved.profile.username = clone_opt_ref(manifest_username);
        }
        if resolved.profile.password.is_none() {
            resolved.profile.password = clone_opt_ref(manifest_password);
        }
        assert(profile_fields(resolved.profile) =~= profile_fields(before.profile)
            .update(0, merge_field(before.profile.username, effective_auth(*repo).0))
            .update(1, merge_field(before.profile.password, effective_auth(*repo).1)));
        resolved
    }
}

/// The fields of the profile found by the levels, all unset when none yields one.
pub open spec fn found_fields(
    env: CredentialProfile,
    cli_file: Option<Result<CredentialProfile, CredentialError>>,
    default_file: Option<Result<CredentialProfile, CredentialError>>,
    helper: Option<Result<CredentialProfile, CredentialError>>,
) -> Seq<Option<String>> {
    match resolution_source(env, cli_file, default_file, helper).1 {
        Some(p) => profile_fields(p),
        None => Seq::new(8, |i: int| None::<String>),
    }
}

impl CredentialService {
    /// The credentials of a repository under the profile name chosen for it (see
    /// `profile_name_for`), from what each level gave (see
    /// `CredentialStore::resolve_credentials`), with the manifest's username and
    /// password filling those two fields when they are still unset.
    pub fn get_credentials_for_repo(
        &self,
        repo: &ManifestRepo,
        profile_name: &str,
        env: CredentialProfile,
        cli_file: Option<Result<CredentialProfile, CredentialError>>,
        default_file: Option<Result<CredentialProfile, CredentialError>>,
        helper: Option<Result<CredentialProfile, CredentialError>>,
    ) -> (r: ResolvedCredentials)
        ensures
            r.profile_name@ == profile_name@,
            r.source == resolution_source(env, cli_file, default_file, helper).0,
            profile_fields(r.profile) == found_fields(env, cli_file, default_file, helper)
                .update(0, merge_field(found_fields(env, cli_file, default_file, helper)[0], effective_auth(*repo).0))
                .update(1, merge_field(found_fields(env, cli_file, default_file, helper)[1], effective_auth(*repo).1)),
    {
        let resolved = CredentialStore::resolve_credentials(profile_name, env, cli_file, default_file, helper);
        proof {
            if resolution_source(env, cli_file, default_file, helper).1 is None {
                assert(profile_fields(resolved.profile) =~= Seq::new(8, |i: int| None::<String>));
            }
        }
        Self::with_manifest_fallback(resolved, repo)
    }
}

} // verus!
