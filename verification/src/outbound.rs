//! Outbound construction and fanout of an undo activity.
//!
//! The activity is fully constructed and addressed — inner block, fresh
//! identity, public addressing, target inboxes — before anything is
//! handed to the delivery layer; a partially built activity never
//! reaches it.  Minting an identity needs a fresh unique token, which the
//! caller supplies; everything else is computed here.

use vstd::prelude::*;
use vstd::string::StringExecFns;

use crate::model::ActivityKind;
use crate::model::BlockUserFromCommunity;
use crate::model::Community;
use crate::model::Person;
use crate::model::ScalarValue;
use crate::model::UndoBlockUserFromCommunity;
use crate::uris::context_marker;
use crate::uris::context_uri;
use crate::uris::public_marker;
use crate::uris::public_uri;

verus! {

/// The path segment naming an activity kind in minted identifiers.
pub open spec fn kind_segment(kind: ActivityKind) -> Seq<char> {
    match kind {
        ActivityKind::Undo => "undo"@,
        ActivityKind::Block => "block"@,
    }
}

/// The identity minted for a fresh activity: the local scheme-and-host
/// prefix, the kind's path segment, and the caller's unique token.
pub open spec fn spec_activity_id(
    protocol_and_hostname: Seq<char>,
    kind: ActivityKind,
    token: Seq<char>,
) -> Seq<char> {
    protocol_and_hostname + "/activities/"@ + kind_segment(kind) + "/"@ + token
}

/// Mint a globally unique activity identifier scoped to this instance.
/// Uniqueness comes from the caller's token being fresh.
pub fn generate_activity_id(
    kind: ActivityKind,
    protocol_and_hostname: &String,
    token: &String,
) -> (r: String)
    ensures
        r@ == spec_activity_id(protocol_and_hostname@, kind, token@),
{
    let prefix = protocol_and_hostname.clone().concat("/activities/");
    let with_kind = match kind {
        ActivityKind::Undo => prefix.concat("undo"),
        ActivityKind::Block => prefix.concat("block"),
    };
    with_kind.concat("/").concat(token.as_str())
}

/// A fully constructed outbound activity with its identity and delivery
/// targets, ready to enqueue; no network work has happened yet.
#[derive(Debug, PartialEq)]
pub struct Delivery {
    pub activity: UndoBlockUserFromCommunity,
    pub id: String,
    pub inboxes: Vec<String>,
}

impl BlockUserFromCommunity {
    /// Construct a block of `target` from `community`, acted by `actor`,
    /// publicly addressed, carrying a fresh identity minted from `token`.
    pub fn new(
        community: &Community,
        target: &Person,
        actor: &Person,
        protocol_and_hostname: &String,
        token: &String,
    ) -> (r: BlockUserFromCommunity)
        ensures
            r.wf(),
            r.actor == actor.actor_id,
            r.to@.len() == 1 && r.to@[0]@ == public_uri(),
            r.object == target.actor_id,
            r.cc@.len() == 1 && r.cc@[0] == community.actor_id,
            r.id@ == spec_activity_id(protocol_and_hostname@, ActivityKind::Block, token@),
            r.context@ == context_uri(),
            r.unparsed@ == Seq::<(String, ScalarValue)>::empty(),
    {
        let mut to: Vec<String> = Vec::new();
        to.push(public_marker());
        let mut cc: Vec<String> = Vec::new();
        cc.push(community.actor_id.clone());
        let r = BlockUserFromCommunity {
            actor: actor.actor_id.clone(),
            to,
            object: target.actor_id.clone(),
            cc,
            kind: ActivityKind::Block,
            id: generate_activity_id(ActivityKind::Block, protocol_and_hostname, token),
            context: context_marker(),
            unparsed: Vec::new(),
        };
        proof {
            assert(r.unparsed@ =~= Seq::<(String, ScalarValue)>::empty());
        }
        r
    }
}

impl UndoBlockUserFromCommunity {
    /// Construct the outbound undo: wrap a fresh block of `target`, mint
    /// the undo's own identity, address it publicly with the community in
    /// `cc`, and pick the target's shared-or-direct inbox as the delivery
    /// set.  The returned order is complete before any I/O is attempted.
    pub fn send(
        community: &Community,
        target: &Person,
        actor: &Person,
        protocol_and_hostname: &String,
        block_token: &String,
        undo_token: &String,
    ) -> (r: Delivery)
        ensures
            r.activity.wf(),
            r.activity.actor == actor.actor_id,
            r.activity.to@.len() == 1 && r.activity.to@[0]@ == public_uri(),
            r.activity.cc@.len() == 1 && r.activity.cc@[0] == community.actor_id,
            r.activity.object.actor == actor.actor_id,
            r.activity.object.object == target.actor_id,
            r.activity.object.to@.len() == 1 && r.activity.object.to@[0]@ == public_uri(),
            r.activity.object.cc@.len() == 1 && r.activity.object.cc@[0] == community.actor_id,
            r.activity.object.id@ == spec_activity_id(
                protocol_and_hostname@,
                ActivityKind::Block,
                block_token@,
            ),
            r.id@ == spec_activity_id(protocol_and_hostname@, ActivityKind::Undo, undo_token@),
            r.activity.id == r.id,
            r.activity.context@ == context_uri(),
            r.activity.unparsed@ == Seq::<(String, ScalarValue)>::empty(),
            r.inboxes@.len() == 1 && r.inboxes@[0]@ == target.spec_shared_inbox_or_inbox(),
    {
        let block = BlockUserFromCommunity::new(
            community,
            target,
            actor,
            protocol_and_hostname,
            block_token,
        );
        let id = generate_activity_id(ActivityKind::Undo, protocol_and_hostname, undo_token);
        let mut to: Vec<String> = Vec::new();
        to.push(public_marker());
        let mut cc: Vec<String> = Vec::new();
        cc.push(community.actor_id.clone());
        let undo = UndoBlockUserFromCommunity {
            actor: actor.actor_id.clone(),
            to,
            object: block,
            cc,
            kind: ActivityKind::Undo,
            id: id.clone(),
            context: context_marker(),
            unparsed: Vec::new(),
        };
        let mut inboxes: Vec<String> = Vec::new();
        inboxes.push(target.shared_inbox_or_inbox_url());
        let r = Delivery { activity: undo, id, inboxes };
        proof {
            assert(r.activity.unparsed@ =~= Seq::<(String, ScalarValue)>::empty());
        }
        r
    }
}

} // verus!
