//! Data model: actors, communities and the activity envelopes.
//!
//! An envelope is the typed representation of one federated activity.
//! Field names mirror the wire contract; unknown wire fields are carried
//! in an explicit ordered bag (`unparsed`) and are never interpreted.

use vstd::prelude::*;

verus! {

/// Discriminant tag of an activity envelope (the `type` field on the wire).
#[derive(Clone, Copy, Debug, PartialEq, Eq, Structural)]
pub enum ActivityKind {
    Undo,
    Block,
}

/// An untyped wire value carried through unchanged: a plain string, a list
/// of strings, or the raw uninterpreted text of anything else.
#[derive(Debug, PartialEq)]
pub enum ScalarValue {
    Text(String),
    TextList(Vec<String>),
    Raw(String),
}

/// A local or remote identity able to send and receive activities.
/// Immutable once fetched within a single operation.
#[derive(Debug, PartialEq)]
pub struct Person {
    /// Local numeric key of the person row.
    pub id: i32,
    /// Unique network identifier (URI).
    pub actor_id: String,
    /// Direct delivery endpoint.
    pub inbox: String,
    /// Per-server delivery endpoint used for batching, when known.
    pub shared_inbox: Option<String>,
}

impl Person {
    /// Delivery endpoint of this person: the shared inbox when one is
    /// known, else the direct inbox.
    pub open spec fn spec_shared_inbox_or_inbox(self) -> Seq<char> {
        match self.shared_inbox {
            Option::Some(s) => s@,
            Option::None => self.inbox@,
        }
    }

    pub fn shared_inbox_or_inbox_url(&self) -> (r: String)
        ensures
            r@ == self.spec_shared_inbox_or_inbox(),
    {
        match &self.shared_inbox {
            Option::Some(s) => s.clone(),
            Option::None => self.inbox.clone(),
        }
    }
}

/// An actor-like entity representing a topical group; it owns the sets of
/// known members and of current moderators.
#[derive(Debug, PartialEq)]
pub struct Community {
    /// Local numeric key of the community row.
    pub id: i32,
    /// Unique network identifier (URI).
    pub actor_id: String,
    /// Persons known to belong to the community.
    pub members: Vec<i32>,
    /// Persons currently holding moderator privilege.
    pub moderators: Vec<i32>,
}

impl Community {
    pub open spec fn spec_is_member(self, person: i32) -> bool {
        self.members@.contains(person)
    }

    pub open spec fn spec_is_moderator(self, person: i32) -> bool {
        self.moderators@.contains(person)
    }

    pub fn is_member(&self, person: i32) -> (r: bool)
        ensures
            r == self.spec_is_member(person),
    {
        contains_id(&self.members, person)
    }

    pub fn is_moderator(&self, person: i32) -> (r: bool)
        ensures
            r == self.spec_is_moderator(person),
    {
        contains_id(&self.moderators, person)
    }
}

/// Linear scan for a numeric key.
fn contains_id(v: &Vec<i32>, x: i32) -> (r: bool)
    ensures
        r == v@.contains(x),
{
    let mut i: usize = 0;
    while i < v.len()
        invariant
            0 <= i <= v@.len(),
            forall|j: int| 0 <= j < i ==> v@[j] != x,
        decreases v@.len() - i,
    {
        if v[i] == x {
            assert(v@.contains(x));
            return true;
        }
        i = i + 1;
    }
    return false;
}

/// What a remote reference can resolve to.
#[derive(Debug, PartialEq)]
pub enum Entity {
    Person(Person),
    Community(Community),
}

/// The inner activity: a block of one person from one community.
/// `object` is the banned person's URI; the community is the first `cc`
/// recipient, as on the wire.
#[derive(Debug, PartialEq)]
pub struct BlockUserFromCommunity {
    pub actor: String,
    pub to: Vec<String>,
    pub object: String,
    pub cc: Vec<String>,
    pub kind: ActivityKind,
    pub id: String,
    /// Raw text of the protocol-context marker (`@context` on the wire).
    pub context: String,
    /// Unrecognized wire fields, preserved verbatim and in order.
    pub unparsed: Vec<(String, ScalarValue)>,
}

impl BlockUserFromCommunity {
    pub open spec fn wf(self) -> bool {
        self.kind == ActivityKind::Block
    }
}

/// The outer activity: an undo of a prior block.  The nested `object` is
/// itself a fully valid inner activity with its own addressing.
#[derive(Debug, PartialEq)]
pub struct UndoBlockUserFromCommunity {
    pub actor: String,
    pub to: Vec<String>,
    pub object: BlockUserFromCommunity,
    pub cc: Vec<String>,
    pub kind: ActivityKind,
    pub id: String,
    /// Raw text of the protocol-context marker (`@context` on the wire).
    pub context: String,
    /// Unrecognized wire fields, preserved verbatim and in order.
    pub unparsed: Vec<(String, ScalarValue)>,
}

impl UndoBlockUserFromCommunity {
    pub open spec fn wf(self) -> bool {
        self.kind == ActivityKind::Undo && self.object.wf()
    }
}

} // verus!
