//! The verification pipeline and the inbound receive step.
//!
//! Five strictly ordered gates must all pass before any mutation is
//! attempted: public addressing, origin consistency of the declared
//! identity with the acting actor, resolution of the target community,
//! membership of the actor in it, and the actor's current moderator
//! privilege.  An undo additionally re-runs the inner block's own gates:
//! it is only valid if the activity it undoes would itself currently be
//! accepted.  The first failure discards the activity; nothing is
//! partially applied.

use vstd::prelude::*;

use crate::error::ActivityError;
use crate::error::ResolveError;
use crate::error::ValidationError;
use crate::model::BlockUserFromCommunity;
use crate::model::Community;
use crate::model::Person;
use crate::model::UndoBlockUserFromCommunity;
use crate::resolver::Resolver;
use crate::resolver::spec_community;
use crate::resolver::spec_person;
use crate::store::BanStore;
use crate::store::unban_applied;
use crate::uris::host_of;
use crate::uris::host_of_spec;
use crate::uris::public_marker;
use crate::uris::public_uri;

verus! {

/// Whether the recipient set carries the distinguished public marker.
pub open spec fn addressed_to_public(to: Seq<String>) -> bool {
    exists|i: int| 0 <= i < to.len() && to[i]@ == public_uri()
}

/// Whether an activity's declared identity and its acting actor live
/// under one host, as the `url` crate reads both.
pub open spec fn origin_consistent(id: Seq<char>, actor: Seq<char>) -> bool {
    match (host_of_spec(id), host_of_spec(actor)) {
        (Option::Some(a), Option::Some(b)) => a == b,
        _ => false,
    }
}

/// Gate: the recipient set must carry the public marker.
pub fn verify_is_public(to: &Vec<String>) -> (r: Result<(), ValidationError>)
    ensures
        match r {
            Result::Ok(()) => addressed_to_public(to@),
            Result::Err(e) => e == ValidationError::NotPublic && !addressed_to_public(to@),
        },
{
    let marker = public_marker();
    let mut i: usize = 0;
    while i < to.len()
        invariant
            marker@ == public_uri(),
            0 <= i <= to@.len(),
            forall|j: int| 0 <= j < i ==> to@[j]@ != public_uri(),
        decreases to@.len() - i,
    {
        if to[i] == marker {
            return Ok(());
        }
        i = i + 1;
    }
    Err(ValidationError::NotPublic)
}

/// Gate: the activity's identity must be issued by the actor's own host.
pub fn verify_activity(id: &String, actor: &String) -> (r: Result<(), ValidationError>)
    ensures
        match r {
            Result::Ok(()) => origin_consistent(id@, actor@),
            Result::Err(e) => e == ValidationError::Malformed && !origin_consistent(id@, actor@),
        },
{
    let id_host = host_of(id);
    let actor_host = host_of(actor);
    match (id_host, actor_host) {
        (Option::Some(a), Option::Some(b)) => {
            if a == b {
                Ok(())
            } else {
                Err(ValidationError::Malformed)
            }
        },
        _ => Err(ValidationError::Malformed),
    }
}

/// Gate: the acting person must be a known member of the community.
pub fn verify_person_in_community(person: &Person, community: &Community) -> (r: Result<
    (),
    ValidationError,
>)
    ensures
        match r {
            Result::Ok(()) => community.spec_is_member(person.id),
            Result::Err(e) => e == ValidationError::ActorNotInCommunity
                && !community.spec_is_member(person.id),
        },
{
    if community.is_member(person.id) {
        Ok(())
    } else {
        Err(ValidationError::ActorNotInCommunity)
    }
}

/// Gate: the acting person must currently hold moderator privilege; the
/// privilege is judged now, not at the time the undone activity was made.
pub fn verify_mod_action(person: &Person, community: &Community) -> (r: Result<
    (),
    ValidationError,
>)
    ensures
        match r {
            Result::Ok(()) => community.spec_is_moderator(person.id),
            Result::Err(e) => e == ValidationError::NotAModerator && !community.spec_is_moderator(
                person.id,
            ),
        },
{
    if community.is_moderator(person.id) {
        Ok(())
    } else {
        Err(ValidationError::NotAModerator)
    }
}

/// The community a block speaks of: its first `cc` recipient, resolved.
pub open spec fn spec_get_community(b: BlockUserFromCommunity, r: Resolver) -> Result<
    Community,
    ActivityError,
> {
    if b.cc@.len() == 0 {
        Result::Err(ActivityError::Validation(ValidationError::Malformed))
    } else {
        match spec_community(r.entries(), b.cc@[0]@) {
            Option::Some(c) => Result::Ok(c),
            Option::None => Result::Err(ActivityError::Resolution(ResolveError::NotFound)),
        }
    }
}

/// The whole inner pipeline on a block activity.
pub open spec fn spec_verify_block(b: BlockUserFromCommunity, r: Resolver) -> Result<
    (),
    ActivityError,
> {
    if !addressed_to_public(b.to@) {
        Result::Err(ActivityError::Validation(ValidationError::NotPublic))
    } else if !origin_consistent(b.id@, b.actor@) {
        Result::Err(ActivityError::Validation(ValidationError::Malformed))
    } else {
        match spec_get_community(b, r) {
            Result::Err(e) => Result::Err(e),
            Result::Ok(c) => match spec_person(r.entries(), b.actor@) {
                Option::None => Result::Err(ActivityError::Resolution(ResolveError::NotFound)),
                Option::Some(p) => if !c.spec_is_member(p.id) {
                    Result::Err(ActivityError::Validation(ValidationError::ActorNotInCommunity))
                } else if !c.spec_is_moderator(p.id) {
                    Result::Err(ActivityError::Validation(ValidationError::NotAModerator))
                } else {
                    Result::Ok(())
                },
            },
        }
    }
}

/// The whole outer pipeline on an undo activity: the outer gates in
/// order, then the inner block's own gates.
pub open spec fn spec_verify_undo(u: UndoBlockUserFromCommunity, r: Resolver) -> Result<
    (),
    ActivityError,
> {
    if !addressed_to_public(u.to@) {
        Result::Err(ActivityError::Validation(ValidationError::NotPublic))
    } else if !origin_consistent(u.id@, u.actor@) {
        Result::Err(ActivityError::Validation(ValidationError::Malformed))
    } else {
        match spec_get_community(u.object, r) {
            Result::Err(e) => Result::Err(e),
            Result::Ok(c) => match spec_person(r.entries(), u.actor@) {
                Option::None => Result::Err(ActivityError::Resolution(ResolveError::NotFound)),
                Option::Some(p) => if !c.spec_is_member(p.id) {
                    Result::Err(ActivityError::Validation(ValidationError::ActorNotInCommunity))
                } else if !c.spec_is_moderator(p.id) {
                    Result::Err(ActivityError::Validation(ValidationError::NotAModerator))
                } else {
                    spec_verify_block(u.object, r)
                },
            },
        }
    }
}

/// What the receive step will delete: the resolved community's and the
/// resolved blocked person's local keys.
pub open spec fn spec_receive_ids(u: UndoBlockUserFromCommunity, r: Resolver) -> Result<
    (i32, i32),
    ActivityError,
> {
    match spec_get_community(u.object, r) {
        Result::Err(e) => Result::Err(e),
        Result::Ok(c) => match spec_person(r.entries(), u.object.object@) {
            Option::None => Result::Err(ActivityError::Resolution(ResolveError::NotFound)),
            Option::Some(p) => Result::Ok((c.id, p.id)),
        },
    }
}

impl BlockUserFromCommunity {
    /// Resolve the community this block speaks of.
    pub fn get_community<'a>(&self, resolver: &'a Resolver) -> (r: Result<
        &'a Community,
        ActivityError,
    >)
        ensures
            match r {
                Result::Ok(c) => spec_get_community(*self, *resolver) == Result::<
                    Community,
                    ActivityError,
                >::Ok(*c),
                Result::Err(e) => spec_get_community(*self, *resolver) == Result::<
                    Community,
                    ActivityError,
                >::Err(e),
            },
    {
        if self.cc.len() == 0 {
            return Err(ActivityError::Validation(ValidationError::Malformed));
        }
        match resolver.resolve_community(&self.cc[0]) {
            Result::Ok(c) => Ok(c),
            Result::Err(e) => Err(ActivityError::Resolution(e)),
        }
    }

    /// Run the gates on this block alone.
    pub fn verify(&self, resolver: &Resolver) -> (r: Result<(), ActivityError>)
        ensures
            r == spec_verify_block(*self, *resolver),
    {
        if let Err(e) = verify_is_public(&self.to) {
            return Err(ActivityError::Validation(e));
        }
        if let Err(e) = verify_activity(&self.id, &self.actor) {
            return Err(ActivityError::Validation(e));
        }
        let community = match self.get_community(resolver) {
            Result::Ok(c) => c,
            Result::Err(e) => {
                return Err(e);
            },
        };
        let person = match resolver.resolve_person(&self.actor) {
            Result::Ok(p) => p,
            Result::Err(e) => {
                return Err(ActivityError::Resolution(e));
            },
        };
        if let Err(e) = verify_person_in_community(person, community) {
            return Err(ActivityError::Validation(e));
        }
        if let Err(e) = verify_mod_action(person, community) {
            return Err(ActivityError::Validation(e));
        }
        Ok(())
    }
}

impl UndoBlockUserFromCommunity {
    /// Resolve the community this undo speaks of: the inner activity's.
    pub fn get_community<'a>(&self, resolver: &'a Resolver) -> (r: Result<
        &'a Community,
        ActivityError,
    >)
        ensures
            match r {
                Result::Ok(c) => spec_get_community(self.object, *resolver) == Result::<
                    Community,
                    ActivityError,
                >::Ok(*c),
                Result::Err(e) => spec_get_community(self.object, *resolver) == Result::<
                    Community,
                    ActivityError,
                >::Err(e),
            },
    {
        self.object.get_community(resolver)
    }

    /// Run all gates: the outer activity's, then the inner block's.
    pub fn verify(&self, resolver: &Resolver) -> (r: Result<(), ActivityError>)
        ensures
            r == spec_verify_undo(*self, *resolver),
    {
        if let Err(e) = verify_is_public(&self.to) {
            return Err(ActivityError::Validation(e));
        }
        if let Err(e) = verify_activity(&self.id, &self.actor) {
            return Err(ActivityError::Validation(e));
        }
        let community = match self.get_community(resolver) {
            Result::Ok(c) => c,
            Result::Err(e) => {
                return Err(e);
            },
        };
        let person = match resolver.resolve_person(&self.actor) {
            Result::Ok(p) => p,
            Result::Err(e) => {
                return Err(ActivityError::Resolution(e));
            },
        };
        if let Err(e) = verify_person_in_community(person, community) {
            return Err(ActivityError::Validation(e));
        }
        if let Err(e) = verify_mod_action(person, community) {
            return Err(ActivityError::Validation(e));
        }
        self.object.verify(resolver)
    }

    /// Apply the moderation effect: resolve the community and the blocked
    /// person again and delete the ban row.  Succeeds whether or not the
    /// row exists; on any failure the store is untouched.
    pub fn receive(self, resolver: &Resolver, store: &mut BanStore) -> (r: Result<
        (),
        ActivityError,
    >)
        requires
            old(store).wf(),
        ensures
            match spec_receive_ids(self, *resolver) {
                Result::Ok(ids) => r == Result::<(), ActivityError>::Ok(()) && unban_applied(
                    *old(store),
                    *final(store),
                    ids.0,
                    ids.1,
                ),
                Result::Err(e) => r == Result::<(), ActivityError>::Err(e) && *final(store)
                    == *old(store),
            },
    {
        let community = match self.object.get_community(resolver) {
            Result::Ok(c) => c,
            Result::Err(e) => {
                return Err(e);
            },
        };
        let blocked = match resolver.resolve_person(&self.object.object) {
            Result::Ok(p) => p,
            Result::Err(e) => {
                return Err(ActivityError::Resolution(e));
            },
        };
        store.unban(community.id, blocked.id);
        Ok(())
    }
}

/// An activity whose recipient set omits the public marker is rejected as
/// NotPublic by the very first gate; no resolution is consulted and, as
/// `verify` takes no store at all, no moderation effect can occur.
pub proof fn lemma_not_public_rejected(u: UndoBlockUserFromCommunity, r: Resolver)
    requires
        !addressed_to_public(u.to@),
    ensures
        spec_verify_undo(u, r) == Result::<(), ActivityError>::Err(
            ActivityError::Validation(ValidationError::NotPublic),
        ),
{
}

/// An actor who is a plain member of the resolved community but no
/// moderator fails exactly the authorization gate: NotAModerator.
pub proof fn lemma_member_without_mod_rejected(
    u: UndoBlockUserFromCommunity,
    r: Resolver,
    c: Community,
    p: Person,
)
    requires
        addressed_to_public(u.to@),
        origin_consistent(u.id@, u.actor@),
        spec_get_community(u.object, r) == Result::<Community, ActivityError>::Ok(c),
        spec_person(r.entries(), u.actor@) == Option::Some(p),
        c.spec_is_member(p.id),
        !c.spec_is_moderator(p.id),
    ensures
        spec_verify_undo(u, r) == Result::<(), ActivityError>::Err(
            ActivityError::Validation(ValidationError::NotAModerator),
        ),
{
}

/// Receiving the same undo a second time leaves the ban relation exactly
/// as the first receive left it, and the second receive also succeeds:
/// the moderation effect is idempotent.
pub proof fn lemma_receive_idempotent(
    u: UndoBlockUserFromCommunity,
    r: Resolver,
    s0: BanStore,
    s1: BanStore,
    s2: BanStore,
    ids: (i32, i32),
)
    requires
        spec_receive_ids(u, r) == Result::<(i32, i32), ActivityError>::Ok(ids),
        unban_applied(s0, s1, ids.0, ids.1),
        unban_applied(s1, s2, ids.0, ids.1),
    ensures
        forall|c: i32, p: i32| s2.spec_banned(c, p) == s1.spec_banned(c, p),
{
    crate::store::lemma_unban_idempotent(s0, s1, s2, ids.0, ids.1);
}

} // verus!
