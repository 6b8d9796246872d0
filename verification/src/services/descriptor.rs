//! The deployment descriptor: the ordered list of dependent services and the
//! metadata shown beside it.

use crate::text::{list_view, opt_list_view};
use vstd::prelude::*;

verus! {

/// How a dependent service authenticates its users.
#[derive(Debug, Clone, Copy, PartialEq, Eq, Structural)]
pub enum AuthType {
    /// The service is public.
    NoAuth,
    /// A reverse proxy in front of the service enforces login.
    Oauth2Proxy,
    /// The gateway itself enforces login.
    Portal,
}

/// Gateway settings carried by the descriptor.
#[derive(Debug, Clone)]
pub struct PortalConfig {
    /// Browser-visible URL of the gateway.
    pub public_url: String,
}

/// Identity-provider settings carried by the descriptor.
#[derive(Debug, Clone)]
pub struct KeycloakConfig {
    /// Browser-visible URL of the identity provider.
    pub public_url: String,
    /// Issuer URL of the realm.
    pub issuer_url: String,
    /// Realm name.
    pub realm: String,
}

/// What was deployed, and when.
#[derive(Debug, Clone)]
pub struct DeploymentInfo {
    /// Commit hash of the deployed revision.
    pub commit_sha: Option<String>,
    /// Commit time, ISO 8601 in UTC.
    pub commit_at: Option<String>,
    /// Deployment time, ISO 8601 in UTC.
    pub deployed_at: Option<String>,
}

/// One dependent service.
#[derive(Debug, Clone)]
pub struct Service {
    /// Stable identifier.
    pub id: String,
    /// Display name.
    pub name: String,
    /// Browser-visible URL.
    pub url: String,
    /// Whether the service requires authentication.
    pub protected: bool,
    /// How authentication is handled.
    pub auth_type: AuthType,
    /// Optional grouping for display.
    pub group: Option<String>,
    /// Optional icon.
    pub icon: Option<String>,
    /// Optional description.
    pub description: Option<String>,
    /// Roles of which a user needs one to see the service.
    pub required_realm_roles: Option<Vec<String>>,
}

/// The whole descriptor. The order of `services` is the display order and
/// the order of the logout cascade.
#[derive(Debug, Clone)]
pub struct Descriptor {
    /// Schema version.
    pub version: String,
    /// Deployment identifier.
    pub deployment_id: String,
    /// Environment name.
    pub environment: String,
    /// Base domain.
    pub base_domain: String,
    /// Deployment metadata.
    pub deployment: Option<DeploymentInfo>,
    /// Gateway settings.
    pub portal: PortalConfig,
    /// Identity-provider settings.
    pub keycloak: KeycloakConfig,
    /// Dependent services.
    pub services: Vec<Service>,
}

/// Why a descriptor is refused.
#[derive(Debug, Clone, Copy, PartialEq, Eq, Structural)]
pub enum DescriptorError {
    /// The service at this index is protected and declares no role.
    MissingRoles(usize),
    /// The service at this index is public and declares roles.
    UnexpectedRoles(usize),
}

/// Counts reported once a descriptor is accepted.
#[derive(Debug, Clone, Copy, PartialEq, Eq, Structural)]
pub struct DescriptorSummary {
    /// Number of services.
    pub total_services: usize,
    /// Number of services with `protected` set.
    pub protected_services: usize,
    /// Number of services without it.
    pub public_services: usize,
}

/// A protected service declares at least one role; a public one declares none.
pub open spec fn roles_fit(auth_type: AuthType, roles: Option<Seq<Seq<char>>>) -> bool {
    match auth_type {
        AuthType::NoAuth => roles is None,
        _ => roles matches Some(r) && r.len() > 0,
    }
}

/// Number of services among the first `n` that are marked protected.
pub open spec fn protected_count(services: Seq<Service>, n: int) -> int
    decreases n,
{
    if n <= 0 {
        0
    } else {
        protected_count(services, n - 1) + if services[n - 1].protected {
            1int
        } else {
            0int
        }
    }
}

impl Service {
    /// Whether the declared roles fit the auth type.
    pub open spec fn roles_fit(&self) -> bool {
        roles_fit(self.auth_type, opt_list_view(self.required_realm_roles))
    }

    /// Checks that the declared roles fit the auth type.
    pub fn has_fitting_roles(&self) -> (ok: bool)
        ensures
            ok == self.roles_fit(),
    {
        match self.auth_type {
            AuthType::NoAuth => self.required_realm_roles.is_none(),
            _ => match &self.required_realm_roles {
                Some(r) => {
                    assert(list_view(r@).len() == r@.len());
                    r.len() > 0
                },
                None => false,
            },
        }
    }
}

impl Descriptor {
    /// Every service declares roles that fit its auth type.
    pub open spec fn valid(&self) -> bool {
        forall|i: int| 0 <= i < self.services@.len() ==> (#[trigger] self.services@[i]).roles_fit()
    }

    /// Accepts the descriptor, or names the first service that breaks the
    /// rule on roles.
    pub fn validate(&self) -> (r: Result<(), DescriptorError>)
        ensures
            r is Ok <==> self.valid(),
            match r {
                Ok(_) => true,
                Err(DescriptorError::MissingRoles(i)) => {
                    &&& i < self.services@.len()
                    &&& !self.services@[i as int].roles_fit()
                    &&& self.services@[i as int].auth_type != AuthType::NoAuth
                    &&& forall|j: int| 0 <= j < i ==> (#[trigger] self.services@[j]).roles_fit()
                },
                Err(DescriptorError::UnexpectedRoles(i)) => {
                    &&& i < self.services@.len()
                    &&& !self.services@[i as int].roles_fit()
                    &&& self.services@[i as int].auth_type == AuthType::NoAuth
                    &&& forall|j: int| 0 <= j < i ==> (#[trigger] self.services@[j]).roles_fit()
                },
            },
    {
        let mut i: usize = 0;
        while i < self.services.len()
            invariant
                i <= self.services.len(),
                forall|j: int| 0 <= j < i ==> (#[trigger] self.services@[j]).roles_fit(),
            decreases self.services.len() - i,
        {
            if !self.services[i].has_fitting_roles() {
                return match self.services[i].auth_type {
                    AuthType::NoAuth => Err(DescriptorError::UnexpectedRoles(i)),
                    _ => Err(DescriptorError::MissingRoles(i)),
                };
            }
            i += 1;
        }
        Ok(())
    }

    /// Counts the services, protected and public.
    pub fn summary(&self) -> (s: DescriptorSummary)
        ensures
            s.total_services == self.services@.len(),
            s.protected_services == protected_count(self.services@, self.services@.len() as int),
            s.public_services == s.total_services - s.protected_services,
    {
        let mut protected: usize = 0;
        let mut i: usize = 0;
        while i < self.services.len()
            invariant
                i <= self.services.len(),
                protected == protected_count(self.services@, i as int),
                protected <= i,
            decreases self.services.len() - i,
        {
            if self.services[i].protected {
                protected += 1;
            }
            i += 1;
        }
        DescriptorSummary {
            total_services: self.services.len(),
            protected_services: protected,
            public_services: self.services.len() - protected,
        }
    }
}

} // verus!
