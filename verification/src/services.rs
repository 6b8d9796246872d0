//! Dependent services: the descriptor, access rules, and display cards.

pub mod authz;
pub mod descriptor;
pub mod models;

use crate::config::{DescriptorConfig, DescriptorSource};
use crate::services::authz::{build_role_set, role_set_of};
use crate::services::descriptor::{Descriptor, DescriptorError, Service};
use crate::services::models::{card_views, ServiceCard, ServiceCardView};
use crate::text::{clone_opt, clone_opt_list, list_view, opt_list_view, opt_view};
use vstd::prelude::*;

verus! {

/// Icon of a service that names none.
pub const DEFAULT_ICON: &'static str = "box";

/// Where a refused descriptor came from.
#[derive(Debug, Clone, Copy, PartialEq, Eq, Structural)]
pub enum SourceKind {
    /// Inline JSON from the configuration.
    EnvJson,
    /// A file named by the configuration.
    FilePath,
}

/// A descriptor that was decoded but breaks a rule.
#[derive(Debug, Clone, Copy, PartialEq, Eq, Structural)]
pub struct DescriptorRefused {
    /// Where the descriptor came from.
    pub source: SourceKind,
    /// The rule it breaks.
    pub error: DescriptorError,
}

/// The card that displays `s`.
pub open spec fn card_of(s: Service) -> ServiceCardView {
    ServiceCardView {
        id: s.id@,
        name: s.name@,
        url: s.url@,
        icon: match s.icon {
            Some(i) => i@,
            None => DEFAULT_ICON@,
        },
        description: opt_view(s.description),
        protected: s.protected,
        auth_type: s.auth_type,
        required_realm_roles: opt_list_view(s.required_realm_roles),
    }
}

/// The predicate "a user holding `roles` may see this card".
pub open spec fn visible_to(roles: Set<Seq<char>>) -> spec_fn(ServiceCardView) -> bool {
    |c: ServiceCardView| c.accessible(roles)
}

/// The kind of source a configuration names.
pub fn source_kind(config: &DescriptorConfig) -> (kind: SourceKind)
    ensures
        kind == match config.source {
            DescriptorSource::Json(_) => SourceKind::EnvJson,
            DescriptorSource::File(_) => SourceKind::FilePath,
        },
{
    match &config.source {
        DescriptorSource::Json(_) => SourceKind::EnvJson,
        DescriptorSource::File(_) => SourceKind::FilePath,
    }
}

/// Accepts a decoded descriptor if it is valid, and hands it back unchanged;
/// otherwise reports the rule it breaks together with the configured source.
pub fn load_descriptor(config: &DescriptorConfig, descriptor: Descriptor) -> (r: Result<
    Descriptor,
    DescriptorRefused,
>)
    ensures
        r is Ok <==> descriptor.valid(),
        r matches Ok(d) ==> d == descriptor,
        r matches Err(e) ==> {
            &&& e.source == match config.source {
                DescriptorSource::Json(_) => SourceKind::EnvJson,
                DescriptorSource::File(_) => SourceKind::FilePath,
            }
            &&& match e.error {
                DescriptorError::MissingRoles(i) | DescriptorError::UnexpectedRoles(i) => {
                    &&& i < descriptor.services@.len()
                    &&& !descriptor.services@[i as int].roles_fit()
                    &&& forall|j: int|
                        0 <= j < i ==> (#[trigger] descriptor.services@[j]).roles_fit()
                },
            }
        },
{
    match descriptor.validate() {
        Ok(_) => Ok(descriptor),
        Err(error) => Err(DescriptorRefused { source: source_kind(config), error }),
    }
}

/// One card per service, in the descriptor's order; a service without an
/// icon gets the default one.
pub fn services_from_descriptor(descriptor: &Descriptor) -> (cards: Vec<ServiceCard>)
    ensures
        card_views(cards@) == descriptor.services@.map_values(|s: Service| card_of(s)),
{
    let mut cards: Vec<ServiceCard> = Vec::new();
    let mut i: usize = 0;
    while i < descriptor.services.len()
        invariant
            i <= descriptor.services.len(),
            card_views(cards@) == descriptor.services@.take(i as int).map_values(
                |s: Service| card_of(s),
            ),
        decreases descriptor.services.len() - i,
    {
        let s = &descriptor.services[i];
        let icon = match &s.icon {
            Some(name) => name.clone(),
            None => DEFAULT_ICON.to_owned(),
        };
        let card = ServiceCard {
            id: s.id.clone(),
            name: s.name.clone(),
            url: s.url.clone(),
            icon,
            description: clone_opt(&s.description),
            protected: s.protected,
            auth_type: s.auth_type,
            required_realm_roles: clone_opt_list(&s.required_realm_roles),
        };
        proof {
            assert(card@ == card_of(*s));
            assert(descriptor.services@.take(i + 1) == descriptor.services@.take(i as int).push(
                *s,
            ));
            assert(card_views(cards@.push(card)) =~= card_views(cards@).push(card@));
            assert(descriptor.services@.take(i as int).push(*s).map_values(
                |s: Service| card_of(s),
            ) =~= descriptor.services@.take(i as int).map_values(|s: Service| card_of(s)).push(
                card_of(*s),
            ));
        }
        cards.push(card);
        i += 1;
    }
    proof {
        assert(descriptor.services@.take(descriptor.services.len() as int)
            == descriptor.services@);
    }
    cards
}

/// The cards a user with the listed roles may see, in their order.
pub fn filter_services_for_user(services: &[ServiceCard], user_roles: &[String]) -> (shown: Vec<
    ServiceCard,
>)
    ensures
        card_views(shown@) == card_views(services@).filter(
            visible_to(role_set_of(list_view(user_roles@))),
        ),
{
    let role_set = build_role_set(user_roles);
    let ghost pred = visible_to(role_set@);
    let mut shown: Vec<ServiceCard> = Vec::new();
    let mut i: usize = 0;
    proof {
        reveal(Seq::filter);
        assert(card_views(services@.take(0)) =~= Seq::<ServiceCardView>::empty());
    }
    while i < services.len()
        invariant
            i <= services.len(),
            pred == visible_to(role_set@),
            card_views(shown@) == card_views(services@.take(i as int)).filter(pred),
        decreases services.len() - i,
    {
        let card = &services[i];
        proof {
            assert(services@.take(i + 1) == services@.take(i as int).push(*card));
            assert(card_views(services@.take(i as int).push(*card)) =~= card_views(
                services@.take(i as int),
            ).push(card@));
            card_views(services@.take(i as int)).lemma_filter_push(card@, pred);
        }
        if card.is_accessible_by_role_set(&role_set) {
            let copy = card.duplicate();
            proof {
                assert(card_views(shown@.push(copy)) =~= card_views(shown@).push(copy@));
            }
            shown.push(copy);
        }
        i += 1;
    }
    proof {
        assert(services@.take(services.len() as int) == services@);
    }
    shown
}

} // verus!
