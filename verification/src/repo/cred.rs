//! Resolving S3 credentials: each source either does not apply, gives
//! credentials, or is malformed, and the first source that applies decides.

use vstd::prelude::*;
use crate::repo::error::Error;

verus! {

/// Credentials for an S3 client.
#[derive(Debug)]
pub struct AwsCred {
    pub key_id: String,
    pub key_secret: String,
    pub region: Option<String>,
    pub endpoint: Option<String>,
}

/// The names of the environment variables of one set of credentials.
#[derive(Debug, Clone, Copy)]
pub struct CredEnv {
    pub key_id: &'static str,
    pub key_secret: &'static str,
    pub region: &'static str,
    pub endpoint: &'static str,
}

/// The installer's own set of environment variables.
pub fn binst_cred_env() -> (r: CredEnv)
    ensures
        r.key_id@ == "BINST_REPO_AWS_KEY_ID"@,
        r.key_secret@ == "BINST_REPO_AWS_KEY_SECRET"@,
        r.region@ == "BINST_REPO_AWS_REGION"@,
        r.endpoint@ == "BINST_REPO_AWS_ENDPOINT"@,
{
    CredEnv {
        key_id: "BINST_REPO_AWS_KEY_ID",
        key_secret: "BINST_REPO_AWS_KEY_SECRET",
        region: "BINST_REPO_AWS_REGION",
        endpoint: "BINST_REPO_AWS_ENDPOINT",
    }
}

/// The provider's standard set of environment variables.
pub fn aws_cred_env() -> (r: CredEnv)
    ensures
        r.key_id@ == "AWS_ACCESS_KEY_ID"@,
        r.key_secret@ == "AWS_SECRET_ACCESS_KEY"@,
        r.region@ == "AWS_DEFAULT_REGION"@,
        r.endpoint@ == "AWS_ENDPOINT"@,
{
    CredEnv {
        key_id: "AWS_ACCESS_KEY_ID",
        key_secret: "AWS_SECRET_ACCESS_KEY",
        region: "AWS_DEFAULT_REGION",
        endpoint: "AWS_ENDPOINT",
    }
}

/// The region that a client is set up with: the credentials' region; without
/// one, a stand-in where an endpoint is given, since a client with an
/// endpoint still wants a region.
pub open spec fn effective_region(region: Option<String>, endpoint: Option<String>) -> Option<
    Seq<char>,
> {
    match region {
        Some(r) => Some(r@),
        None => match endpoint {
            Some(_) => Some("endpoint-region"@),
            None => None,
        },
    }
}

impl AwsCred {
    /// The region to set a client up with.
    pub fn client_region(&self) -> (r: Option<String>)
        ensures
            match r {
                Some(text) => effective_region(self.region, self.endpoint) == Some(text@),
                None => effective_region(self.region, self.endpoint).is_none(),
            },
    {
        match &self.region {
            Some(region) => Some(region.clone()),
            None => match &self.endpoint {
                Some(_) => Some(String::from_str("endpoint-region")),
                None => None,
            },
        }
    }
}

impl CredEnv {
    /// Credentials from the values of this set's variables, each absent where
    /// the variable is not set. Without a key id and a secret the set does
    /// not apply. With both, a region or an endpoint must be there too. With
    /// only one of the two the set is malformed.
    pub fn aws_cred(
        &self,
        key_id: Option<String>,
        key_secret: Option<String>,
        region: Option<String>,
        endpoint: Option<String>,
    ) -> (r: Result<Option<AwsCred>, Error>)
        ensures
            match (key_id, key_secret) {
                (None, None) => r matches Ok(None),
                (Some(id), Some(secret)) => if region is None && endpoint is None {
                    r matches Err(Error::S3CredMustHaveRegionOrEndpoint)
                } else {
                    r matches Ok(Some(cred)) && cred.key_id == id && cred.key_secret == secret
                        && cred.region == region && cred.endpoint == endpoint
                },
                _ => r matches Err(Error::S3CredMissingInEnvOrProfile),
            },
    {
        match (key_id, key_secret) {
            (None, None) => Ok(None),
            (Some(key_id), Some(key_secret)) => {
                if region.is_none() && endpoint.is_none() {
                    return Err(Error::S3CredMustHaveRegionOrEndpoint);
                }
                Ok(Some(AwsCred { key_id, key_secret, region, endpoint }))
            },
            _ => Err(Error::S3CredMissingInEnvOrProfile),
        }
    }
}

/// Credentials from the values of a profile of the provider's configuration
/// files, each absent where the profile does not hold the key. A profile
/// without a key id or without a secret is malformed, and the failure names
/// the missing key.
pub fn aws_cred_from_aws_profile_configs(
    key_id: Option<String>,
    key_secret: Option<String>,
    region: Option<String>,
    endpoint: Option<String>,
) -> (r: Result<Option<AwsCred>, Error>)
    ensures
        match (key_id, key_secret) {
            (None, _) => r matches Err(Error::NoCredentialConfig(key)) && key@
                == "aws_access_key_id"@,
            (Some(_), None) => r matches Err(Error::NoCredentialConfig(key)) && key@
                == "aws_secret_access_key"@,
            (Some(id), Some(secret)) => r matches Ok(Some(cred)) && cred.key_id == id
                && cred.key_secret == secret && cred.region == region && cred.endpoint
                == endpoint,
        },
{
    let key_id = match key_id {
        Some(v) => v,
        None => { return Err(Error::NoCredentialConfig(String::from_str("aws_access_key_id"))); },
    };
    let key_secret = match key_secret {
        Some(v) => v,
        None => {
            return Err(Error::NoCredentialConfig(String::from_str("aws_secret_access_key")));
        },
    };
    Ok(Some(AwsCred { key_id, key_secret, region, endpoint }))
}

/// The outcome of the first source that applies, where the sources are
/// asked in order from `from` on: `Ok(None)` where none applies.
pub open spec fn first_applicable(outcomes: Seq<Result<Option<AwsCred>, Error>>, from: int) -> Result<
    Option<AwsCred>,
    Error,
>
    decreases outcomes.len() - from,
{
    if from < 0 || from >= outcomes.len() {
        Ok(None)
    } else if outcomes[from] matches Ok(None) {
        first_applicable(outcomes, from + 1)
    } else {
        outcomes[from]
    }
}

/// Resolves credentials from the outcomes of the sources, in their order: a
/// profile where one was named, then the installer's own environment
/// variables, then the provider's. The first source that applies decides,
/// whether it gives credentials or is malformed; where none applies the
/// credentials are missing.
pub fn resolve_aws_cred(outcomes: Vec<Result<Option<AwsCred>, Error>>) -> (r: Result<AwsCred, Error>)
    ensures
        match first_applicable(outcomes@, 0) {
            Ok(Some(cred)) => r == Ok::<AwsCred, Error>(cred),
            Ok(None) => r matches Err(Error::S3CredMissingInEnvOrProfile),
            Err(e) => r == Err::<AwsCred, Error>(e),
        },
{
    let ghost all = outcomes@;
    let mut front = outcomes;
    let mut rest: Vec<Result<Option<AwsCred>, Error>> = Vec::new();
    // Taken from the back, so that each outcome is moved out once.
    while front.len() > 0
        invariant
            front@.len() + rest@.len() == all.len(),
            forall|k: int| 0 <= k < front@.len() ==> front@[k] == all[k],
            forall|k: int|
                0 <= k < rest@.len() ==> rest@[k] == all[all.len() - 1 - k],
        decreases front@.len(),
    {
        let last = front.pop().unwrap();
        rest.push(last);
    }
    let total = rest.len();
    let mut i: usize = 0;
    while rest.len() > 0
        invariant
            all == outcomes@,
            i + rest@.len() == total,
            total == all.len(),
            forall|k: int| 0 <= k < rest@.len() ==> rest@[k] == all[total - 1 - k],
            first_applicable(all, 0) == first_applicable(all, i as int),
        decreases rest@.len(),
    {
        let next = rest.pop().unwrap();
        proof {
            assert(next == all[i as int]);
            if next matches Ok(None) {
                assert(first_applicable(all, i as int) == first_applicable(all, i + 1));
            } else {
                assert(first_applicable(all, i as int) == all[i as int]);
            }
        }
        match next {
            Ok(None) => {},
            Ok(Some(cred)) => { return Ok(cred); },
            Err(e) => { return Err(e); },
        }
        i += 1;
    }
    Err(Error::S3CredMissingInEnvOrProfile)
}

} // verus!
