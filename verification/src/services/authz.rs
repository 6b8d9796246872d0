//! Role-based access decisions. They control what is displayed; enforcement
//! for proxied services happens elsewhere.

use crate::services::descriptor::AuthType;
use crate::text::{lemma_list_view_push, list_view, str_eq};
use vstd::prelude::*;

verus! {

broadcast use crate::text::group_list_view;

/// Holders of this role may access every service.
pub const ADMIN_ROLE: &'static str = "admin";

/// The roles a user holds. No role is stored twice.
pub struct RoleSet {
    roles: Vec<String>,
}

/// The set of the strings of a list.
pub open spec fn role_set_of(roles: Seq<Seq<char>>) -> Set<Seq<char>> {
    Set::new(|r: Seq<char>| roles.contains(r))
}

/// The access rule. An admin may access everything; a public service is open
/// to all; otherwise the service must declare roles and the user must hold
/// one of them.
pub open spec fn can_access(
    user_roles: Set<Seq<char>>,
    auth_type: AuthType,
    required: Option<Seq<Seq<char>>>,
) -> bool {
    ||| user_roles.contains(ADMIN_ROLE@)
    ||| auth_type == AuthType::NoAuth
    ||| match required {
        Some(req) => holds_one_of(user_roles, req),
        None => false,
    }
}

/// Whether the user holds at least one of the listed roles.
pub open spec fn holds_one_of(user_roles: Set<Seq<char>>, listed: Seq<Seq<char>>) -> bool {
    exists|i: int| 0 <= i < listed.len() && user_roles.contains(#[trigger] listed[i])
}

impl View for RoleSet {
    type V = Set<Seq<char>>;

    closed spec fn view(&self) -> Set<Seq<char>> {
        role_set_of(list_view(self.roles@))
    }
}

impl RoleSet {
    #[verifier::type_invariant]
    spec fn distinct(&self) -> bool {
        list_view(self.roles@).no_duplicates()
    }

    /// The empty set.
    pub fn new() -> (set: RoleSet)
        ensures
            set@ == Set::<Seq<char>>::empty(),
    {
        let set = RoleSet { roles: Vec::new() };
        assert(set@ =~= Set::<Seq<char>>::empty());
        set
    }

    /// Whether `role` is in the set.
    pub fn contains(&self, role: &str) -> (found: bool)
        ensures
            found == self@.contains(role@),
    {
        let mut i: usize = 0;
        while i < self.roles.len()
            invariant
                i <= self.roles.len(),
                forall|j: int| 0 <= j < i ==> list_view(self.roles@)[j] != role@,
            decreases self.roles.len() - i,
        {
            if str_eq(self.roles[i].as_str(), role) {
                assert(list_view(self.roles@)[i as int] == role@);
                return true;
            }
            i += 1;
        }
        false
    }

    /// Adds `role` unless it is there already.
    pub fn insert(&mut self, role: &str)
        ensures
            final(self)@ == old(self)@.insert(role@),
    {
        proof {
            use_type_invariant(&*self);
        }
        if !self.contains(role) {
            let ghost before = list_view(self.roles@);
            let mut held = RoleSet { roles: Vec::new() };
            core::mem::swap(self, &mut held);
            let mut roles = held.roles;
            let added = role.to_owned();
            proof {
                lemma_list_view_push(roles@, added);
            }
            roles.push(added);
            *self = RoleSet { roles };
            proof {
                assert(list_view(self.roles@) == before.push(role@));
                assert(self@ =~= role_set_of(before).insert(role@)) by {
                    assert forall|r: Seq<char>|
                        before.push(role@).contains(r) <==> (before.contains(r) || r == role@) by {
                        if before.contains(r) {
                            let k = choose|k: int| 0 <= k < before.len() && before[k] == r;
                            assert(before.push(role@)[k] == r);
                        }
                        if r == role@ {
                            assert(before.push(role@)[before.len() as int] == r);
                        }
                    }
                }
            }
        } else {
            assert(self@ =~= self@.insert(role@));
        }
    }

    /// Number of distinct roles.
    pub fn len(&self) -> (n: usize)
        ensures
            n == self@.len(),
            self@.finite(),
    {
        proof {
            use_type_invariant(self);
            let l = list_view(self.roles@);
            l.unique_seq_to_set();
            assert(l.to_set() =~= self@);
        }
        self.roles.len()
    }
}

/// Collects a user's roles for repeated lookups.
pub fn build_role_set(roles: &[String]) -> (set: RoleSet)
    ensures
        set@ == role_set_of(list_view(roles@)),
{
    let mut set = RoleSet::new();
    let mut i: usize = 0;
    while i < roles.len()
        invariant
            i <= roles.len(),
            set@ == role_set_of(list_view(roles@.take(i as int))),
        decreases roles.len() - i,
    {
        let ghost before = list_view(roles@.take(i as int));
        set.insert(roles[i].as_str());
        proof {
            let after = list_view(roles@.take(i + 1));
            assert(roles@.take(i + 1) == roles@.take(i as int).push(roles@[i as int]));
            assert(after == before.push(roles@[i as int]@));
            assert(role_set_of(after) =~= role_set_of(before).insert(roles@[i as int]@)) by {
                assert forall|r: Seq<char>|
                    after.contains(r) <==> (before.contains(r) || r == roles@[i as int]@) by {
                    if before.contains(r) {
                        let k = choose|k: int| 0 <= k < before.len() && before[k] == r;
                        assert(after[k] == r);
                    }
                    if r == roles@[i as int]@ {
                        assert(after[before.len() as int] == r);
                    }
                }
            }
        }
        i += 1;
    }
    proof {
        assert(roles@.take(roles.len() as int) == roles@);
    }
    set
}

/// Decides whether a user holding `user_roles` may see a service.
pub fn can_access_service(
    user_roles: &RoleSet,
    auth_type: &AuthType,
    required_roles: Option<&[String]>,
) -> (allowed: bool)
    ensures
        allowed == can_access(
            user_roles@,
            *auth_type,
            match required_roles {
                Some(r) => Some(list_view(r@)),
                None => None,
            },
        ),
{
    if user_roles.contains(ADMIN_ROLE) {
        return true;
    }
    if matches!(auth_type, AuthType::NoAuth) {
        return true;
    }
    match required_roles {
        Some(required) => {
            let mut i: usize = 0;
            while i < required.len()
                invariant
                    i <= required.len(),
                    required_roles == Some(required),
                    forall|j: int|
                        0 <= j < i ==> !user_roles@.contains(#[trigger] list_view(required@)[j]),
                decreases required.len() - i,
            {
                if user_roles.contains(required[i].as_str()) {
                    proof {
                        let req = list_view(required@);
                        assert(0 <= i < req.len() && user_roles@.contains(req[i as int]));
                    }
                    return true;
                }
                i += 1;
            }
            false
        },
        None => false,
    }
}

/// Access never depends on roles for a public service, an admin is never
/// refused, and a user who is no admin is refused by a protected service
/// that declares no roles.
pub proof fn lemma_access_rules(
    user_roles: Set<Seq<char>>,
    auth_type: AuthType,
    required: Option<Seq<Seq<char>>>,
)
    ensures
        auth_type == AuthType::NoAuth ==> can_access(user_roles, auth_type, required),
        user_roles.contains(ADMIN_ROLE@) ==> can_access(user_roles, auth_type, required),
        auth_type != AuthType::NoAuth && required is None && !user_roles.contains(ADMIN_ROLE@)
            ==> !can_access(user_roles, auth_type, required),
{
}

} // verus!
