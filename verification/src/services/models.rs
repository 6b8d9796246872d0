//! Display cards for dependent services.

use crate::services::authz::{build_role_set, can_access, can_access_service, role_set_of, RoleSet};
use crate::services::descriptor::AuthType;
use crate::text::{clone_opt, clone_opt_list, list_view, opt_list_view, opt_view};
use vstd::prelude::*;

verus! {

/// What is shown of one dependent service.
#[derive(Debug, Clone)]
pub struct ServiceCard {
    /// Stable identifier.
    pub id: String,
    /// Display name.
    pub name: String,
    /// Browser-visible URL.
    pub url: String,
    /// Icon name.
    pub icon: String,
    /// Optional description.
    pub description: Option<String>,
    /// Whether the service requires authentication.
    pub protected: bool,
    /// How authentication is handled.
    pub auth_type: AuthType,
    /// Roles of which a user needs one to see the card.
    pub required_realm_roles: Option<Vec<String>>,
}

/// A card as plain text and flags.
pub ghost struct ServiceCardView {
    pub id: Seq<char>,
    pub name: Seq<char>,
    pub url: Seq<char>,
    pub icon: Seq<char>,
    pub description: Option<Seq<char>>,
    pub protected: bool,
    pub auth_type: AuthType,
    pub required_realm_roles: Option<Seq<Seq<char>>>,
}

impl View for ServiceCard {
    type V = ServiceCardView;

    open spec fn view(&self) -> ServiceCardView {
        ServiceCardView {
            id: self.id@,
            name: self.name@,
            url: self.url@,
            icon: self.icon@,
            description: opt_view(self.description),
            protected: self.protected,
            auth_type: self.auth_type,
            required_realm_roles: opt_list_view(self.required_realm_roles),
        }
    }
}

impl ServiceCardView {
    /// Whether a user holding `roles` may see this card.
    pub open spec fn accessible(self, roles: Set<Seq<char>>) -> bool {
        can_access(roles, self.auth_type, self.required_realm_roles)
    }
}

/// The views of a list of cards.
pub open spec fn card_views(cards: Seq<ServiceCard>) -> Seq<ServiceCardView> {
    cards.map_values(|c: ServiceCard| c@)
}

impl ServiceCard {
    /// Whether a user with the listed roles may see this card.
    pub fn is_accessible_by(&self, user_roles: &[String]) -> (allowed: bool)
        ensures
            allowed == self@.accessible(role_set_of(list_view(user_roles@))),
    {
        let role_set = build_role_set(user_roles);
        self.is_accessible_by_role_set(&role_set)
    }

    /// Whether a user holding `user_roles` may see this card.
    pub fn is_accessible_by_role_set(&self, user_roles: &RoleSet) -> (allowed: bool)
        ensures
            allowed == self@.accessible(user_roles@),
    {
        match &self.required_realm_roles {
            Some(roles) => can_access_service(user_roles, &self.auth_type, Some(roles.as_slice())),
            None => can_access_service(user_roles, &self.auth_type, None),
        }
    }

    /// A copy with the same content.
    pub fn duplicate(&self) -> (copy: ServiceCard)
        ensures
            copy@ == self@,
    {
        ServiceCard {
            id: self.id.clone(),
            name: self.name.clone(),
            url: self.url.clone(),
            icon: self.icon.clone(),
            description: clone_opt(&self.description),
            protected: self.protected,
            auth_type: self.auth_type,
            required_realm_roles: clone_opt_list(&self.required_realm_roles),
        }
    }
}

} // verus!
