use vstd::prelude::*;

use crate::errors::HelmError;
use crate::text::{base64_of, base64_str, trim_of, trim_str};

verus! {

/// The connection details one invocation is given.
pub struct Config {
    pub url: String,
    pub username: String,
    pub password: String,
    pub namespace: String,
    pub skip_tls_verify: Option<bool>,
    pub ca_data: Option<String>,
}

/// The connection invariant: a trust anchor is given, or TLS peer
/// verification is explicitly skipped.
pub open spec fn config_invariant(c: Config) -> bool {
    c.ca_data is Some || c.skip_tls_verify == Some(true)
}

/// Everything bootstrap materializes: the named substitution slots of the
/// rendered client-config artifact, and the raw trust-anchor text when one is
/// due a scoped artifact of its own.
pub struct BootstrapPlan {
    pub skip_tls_verify: bool,
    pub url: String,
    pub namespace: String,
    pub username: String,
    pub password: String,
    /// base64 of the trimmed trust anchor, or the empty sentinel.
    pub ca_data_base64: String,
    /// The raw trust-anchor artifact content, written only when present.
    pub ca_data: Option<String>,
}

impl Config {
    /// Checks the connection invariant and lays out the artifacts to write:
    /// fails with `ConfigInvariantViolation` exactly when ca_data is absent
    /// and skip_tls_verify is not explicitly true.
    pub fn bootstrap_plan(&self) -> (r: Result<BootstrapPlan, HelmError>)
        ensures
            r is Ok <==> config_invariant(*self),
            r matches Err(e) ==> e is ConfigInvariantViolation,
            r matches Ok(p) ==> {
                &&& p.skip_tls_verify == (self.skip_tls_verify == Some(true))
                &&& p.url@ == self.url@
                &&& p.namespace@ == self.namespace@
                &&& p.username@ == self.username@
                &&& p.password@ == self.password@
                &&& (self.ca_data matches Some(c) ==> {
                    &&& p.ca_data_base64@ == base64_of(trim_of(c@))
                    &&& p.ca_data matches Some(d) && d@ == c@
                })
                &&& (self.ca_data is None ==> p.ca_data_base64@ == Seq::<char>::empty()
                    && p.ca_data is None)
            },
    {
        let skip = match self.skip_tls_verify {
            Some(b) => b,
            None => false,
        };
        if self.ca_data.is_none() && !skip {
            return Err(HelmError::ConfigInvariantViolation);
        }
        let (ca_data_base64, ca_data) = match &self.ca_data {
            Some(c) => (base64_str(trim_str(c.as_str()).as_str()), Some(c.clone())),
            None => (String::new(), None),
        };
        Ok(
            BootstrapPlan {
                skip_tls_verify: skip,
                url: self.url.clone(),
                namespace: self.namespace.clone(),
                username: self.username.clone(),
                password: self.password.clone(),
                ca_data_base64,
                ca_data,
            },
        )
    }
}

} // verus!
