//! Tool configuration: authorized organizations, the default organization
//! and an optional hosting token.
//!
//! The configuration document is read from and written to disk by the
//! unverified shell; this module owns the rules over its in-memory value.

use vstd::prelude::*;

use crate::error::ConfigError;
use crate::strutil::str_eq;

verus! {

/// The persistent configuration document.
pub struct DotConfig {
    pub authorized_organizations: Vec<String>,
    pub default_organization: Option<String>,
    pub github_token: Option<String>,
}

impl Default for DotConfig {
    /// An empty configuration: no organizations, no default, no token.
    fn default() -> (r: Self)
        ensures
            r.authorized_organizations@.len() == 0,
            r.default_organization is None,
            r.github_token is None,
    {
        DotConfig {
            authorized_organizations: Vec::new(),
            default_organization: None,
            github_token: None,
        }
    }
}

/// Holder of the loaded configuration.
pub struct ConfigManager {
    pub config: DotConfig,
}

impl ConfigManager {
    /// Wrap an already-loaded configuration document.
    pub fn new(config: DotConfig) -> (r: Self)
        ensures
            r.config == config,
    {
        ConfigManager { config }
    }

    /// Whether `org` is among the authorized organizations.
    pub fn is_organization_authorized(&self, org: &str) -> (r: bool)
        ensures
            r == self.config.authorized_organizations.deep_view().contains(org@),
    {
        let n = self.config.authorized_organizations.len();
        let mut i: usize = 0;
        while i < n
            invariant
                n == self.config.authorized_organizations@.len(),
                i <= n,
                forall|j: int| 0 <= j < i ==> self.config.authorized_organizations@[j]@ != org@,
            decreases n - i,
        {
            if str_eq(self.config.authorized_organizations[i].as_str(), org) {
                proof {
                    assert(self.config.authorized_organizations.deep_view()[i as int] == org@);
                }
                return true;
            }
            i += 1;
        }
        proof {
            assert(forall|j: int|
                0 <= j < self.config.authorized_organizations.deep_view().len()
                    ==> self.config.authorized_organizations.deep_view()[j] != org@);
        }
        false
    }

    /// The configured default organization, if any.
    pub fn get_default_organization(&self) -> (r: Option<&String>)
        ensures
            match r {
                Some(org) => self.config.default_organization == Some(*org),
                None => self.config.default_organization is None,
            },
    {
        self.config.default_organization.as_ref()
    }

    /// A copy of the configured hosting token, if any.
    pub fn get_github_token(&self) -> (r: Option<String>)
        ensures
            r == self.config.github_token,
    {
        match &self.config.github_token {
            Some(t) => Some(t.clone()),
            None => None,
        }
    }

    /// Authorize `org`; a second authorization of the same name changes
    /// nothing.  The caller persists the updated document.
    pub fn add_organization(&mut self, org: String) -> (r: Result<(), ConfigError>)
        ensures
            r is Ok,
            final(self).config.default_organization == old(self).config.default_organization,
            final(self).config.github_token == old(self).config.github_token,
            old(self).config.authorized_organizations.deep_view().contains(org@)
                ==> final(self).config.authorized_organizations
                    == old(self).config.authorized_organizations,
            !old(self).config.authorized_organizations.deep_view().contains(org@)
                ==> final(self).config.authorized_organizations@
                    == old(self).config.authorized_organizations@.push(org),
    {
        if !self.is_organization_authorized(org.as_str()) {
            self.config.authorized_organizations.push(org);
        }
        Ok(())
    }

    /// Withdraw `org` from the authorized organizations; every entry of that
    /// name goes.  The caller persists the updated document.
    pub fn remove_organization(&mut self, org: &str) -> (r: Result<(), ConfigError>)
        ensures
            r is Ok,
            final(self).config.default_organization == old(self).config.default_organization,
            final(self).config.github_token == old(self).config.github_token,
            final(self).config.authorized_organizations@
                == old(self).config.authorized_organizations@.filter(|o: String| o@ != org@),
    {
        let n = self.config.authorized_organizations.len();
        let mut kept: Vec<String> = Vec::new();
        let mut i: usize = 0;
        proof {
            reveal(Seq::filter);
            assert(old(self).config.authorized_organizations@.take(0) =~= Seq::<String>::empty());
        }
        while i < n
            invariant
                n == old(self).config.authorized_organizations@.len(),
                i <= n,
                self.config.authorized_organizations == old(self).config.authorized_organizations,
                self.config.default_organization == old(self).config.default_organization,
                self.config.github_token == old(self).config.github_token,
                kept@ == old(self).config.authorized_organizations@.take(i as int).filter(
                    |o: String| o@ != org@,
                ),
            decreases n - i,
        {
            proof {
                reveal(Seq::filter);
                let all = old(self).config.authorized_organizations@;
                assert(all.take(i + 1).drop_last() =~= all.take(i as int));
                assert(all.take(i + 1).last() == all[i as int]);
            }
            let o = &self.config.authorized_organizations[i];
            if !str_eq(o.as_str(), org) {
                kept.push(o.clone());
            }
            i += 1;
        }
        proof {
            assert(old(self).config.authorized_organizations@.take(n as int) =~= old(
                self,
            ).config.authorized_organizations@);
        }
        self.config.authorized_organizations = kept;
        Ok(())
    }

    /// Make `org` the default organization; refused unless it is authorized.
    /// The caller persists the updated document.
    pub fn set_default_organization(&mut self, org: String) -> (r: Result<(), ConfigError>)
        ensures
            final(self).config.authorized_organizations
                == old(self).config.authorized_organizations,
            final(self).config.github_token == old(self).config.github_token,
            match r {
                Ok(_) => old(self).config.authorized_organizations.deep_view().contains(org@)
                    && final(self).config.default_organization == Some(org),
                Err(e) => e is OrganizationNotAuthorized
                    && !old(self).config.authorized_organizations.deep_view().contains(org@)
                    && final(self).config == old(self).config,
            },
    {
        if !self.is_organization_authorized(org.as_str()) {
            return Err(ConfigError::OrganizationNotAuthorized);
        }
        self.config.default_organization = Some(org);
        Ok(())
    }
}

} // verus!
