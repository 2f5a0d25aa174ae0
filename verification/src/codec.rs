//! The wire layout of an envelope: an ordered list of named fields.
//!
//! Serializing lays the known fields out in a fixed order and appends the
//! extension bag verbatim; parsing accepts exactly that layout, restores
//! every known field and carries every unknown field back into the bag
//! unchanged.  No field is dropped and none is invented, so a round trip
//! preserves extension fields bit for bit.

use vstd::prelude::*;

use crate::error::ValidationError;
use crate::model::ActivityKind;
use crate::model::BlockUserFromCommunity;
use crate::model::ScalarValue;
use crate::model::UndoBlockUserFromCommunity;

verus! {

/// A wire field value of the outer envelope: a scalar carried through,
/// or the one nested object — the inner activity's own field list.
#[derive(Debug, PartialEq)]
pub enum FieldValue {
    Scalar(ScalarValue),
    Object(Vec<(String, ScalarValue)>),
}

/// The fixed layout of a block's field list: the seven known fields in
/// order, then anything else.
pub open spec fn block_wire_shape(bs: Seq<(String, ScalarValue)>) -> bool {
    &&& bs.len() >= 7
    &&& bs[0].0@ == "actor"@ && bs[0].1 is Text
    &&& bs[1].0@ == "to"@ && bs[1].1 is TextList
    &&& bs[2].0@ == "object"@ && bs[2].1 is Text
    &&& bs[3].0@ == "cc"@ && bs[3].1 is TextList
    &&& bs[4].0@ == "type"@ && bs[4].1 is Text && (bs[4].1->Text_0)@ == "Block"@
    &&& bs[5].0@ == "id"@ && bs[5].1 is Text
    &&& bs[6].0@ == "@context"@ && bs[6].1 is Raw
}

/// Which block a well-shaped field list denotes: every known field is the
/// listed value, and the bag is exactly the fields past the known seven.
pub open spec fn block_matches_fields(
    b: BlockUserFromCommunity,
    bs: Seq<(String, ScalarValue)>,
) -> bool {
    &&& b.actor == bs[0].1->Text_0
    &&& b.to == bs[1].1->TextList_0
    &&& b.object == bs[2].1->Text_0
    &&& b.cc == bs[3].1->TextList_0
    &&& b.kind == ActivityKind::Block
    &&& b.id == bs[5].1->Text_0
    &&& b.context == bs[6].1->Raw_0
    &&& b.unparsed@ == bs.skip(7)
}

/// The fixed layout of an undo's field list: the seven known fields in
/// order — the nested object being a well-shaped block list — then any
/// number of scalar extension fields.
pub open spec fn undo_wire_shape(fs: Seq<(String, FieldValue)>) -> bool {
    &&& fs.len() >= 7
    &&& fs[0].0@ == "actor"@ && fs[0].1 is Scalar && fs[0].1->Scalar_0 is Text
    &&& fs[1].0@ == "to"@ && fs[1].1 is Scalar && fs[1].1->Scalar_0 is TextList
    &&& fs[2].0@ == "object"@ && fs[2].1 is Object && block_wire_shape((fs[2].1->Object_0)@)
    &&& fs[3].0@ == "cc"@ && fs[3].1 is Scalar && fs[3].1->Scalar_0 is TextList
    &&& fs[4].0@ == "type"@ && fs[4].1 is Scalar && fs[4].1->Scalar_0 is Text && (fs[4].1->Scalar_0->Text_0)@ == "Undo"@
    &&& fs[5].0@ == "id"@ && fs[5].1 is Scalar && fs[5].1->Scalar_0 is Text
    &&& fs[6].0@ == "@context"@ && fs[6].1 is Scalar && fs[6].1->Scalar_0 is Raw
    &&& forall|i: int| 7 <= i < fs.len() ==> (#[trigger] fs[i]).1 is Scalar
}

/// Which undo a well-shaped field list denotes.
pub open spec fn undo_matches_fields(
    u: UndoBlockUserFromCommunity,
    fs: Seq<(String, FieldValue)>,
) -> bool {
    &&& u.actor == fs[0].1->Scalar_0->Text_0
    &&& u.to == fs[1].1->Scalar_0->TextList_0
    &&& block_matches_fields(u.object, (fs[2].1->Object_0)@)
    &&& u.cc == fs[3].1->Scalar_0->TextList_0
    &&& u.kind == ActivityKind::Undo
    &&& u.id == fs[5].1->Scalar_0->Text_0
    &&& u.context == fs[6].1->Scalar_0->Raw_0
    &&& u.unparsed@.len() == fs.len() - 7
    &&& forall|i: int|
        7 <= i < fs.len() ==> #[trigger] fs[i] == (
            u.unparsed@[i - 7].0,
            FieldValue::Scalar(u.unparsed@[i - 7].1),
        )
}

/// Wrap bag entries as outer wire fields, in order and unchanged.
fn rewrap_extras(extras: Vec<(String, ScalarValue)>) -> (r: Vec<(String, FieldValue)>)
    ensures
        r@.len() == extras@.len(),
        forall|i: int|
            0 <= i < extras@.len() ==> #[trigger] r@[i] == (
                extras@[i].0,
                FieldValue::Scalar(extras@[i].1),
            ),
{
    let ghost src = extras@;
    let mut rest = extras;
    let mut out: Vec<(String, FieldValue)> = Vec::new();
    proof {
        assert(rest@ =~= src.skip(0));
    }
    loop
        invariant
            src == extras@,
            out@.len() + rest@.len() == src.len(),
            rest@ == src.skip(out@.len() as int),
            forall|i: int|
                0 <= i < out@.len() ==> #[trigger] out@[i] == (
                    src[i].0,
                    FieldValue::Scalar(src[i].1),
                ),
        decreases rest@.len(),
    {
        if rest.len() == 0 {
            return out;
        }
        let ghost k = out@.len() as int;
        let (key, value) = rest.remove(0);
        proof {
            assert(src.skip(k)[0] == src[k]);
            assert(rest@ =~= src.skip(k + 1));
        }
        out.push((key, FieldValue::Scalar(value)));
    }
}

/// Take the extension fields back out of a wire tail; any nested object
/// there makes the envelope unusable.
fn unwrap_extras(tail: Vec<(String, FieldValue)>) -> (r: Result<
    Vec<(String, ScalarValue)>,
    ValidationError,
>)
    ensures
        match r {
            Result::Ok(v) => v@.len() == tail@.len() && forall|i: int|
                0 <= i < tail@.len() ==> #[trigger] tail@[i] == (
                    v@[i].0,
                    FieldValue::Scalar(v@[i].1),
                ),
            Result::Err(e) => e == ValidationError::Malformed && exists|i: int|
                0 <= i < tail@.len() && !((#[trigger] tail@[i]).1 is Scalar),
        },
{
    let ghost src = tail@;
    let mut rest = tail;
    let mut out: Vec<(String, ScalarValue)> = Vec::new();
    proof {
        assert(rest@ =~= src.skip(0));
    }
    loop
        invariant
            src == tail@,
            out@.len() + rest@.len() == src.len(),
            rest@ == src.skip(out@.len() as int),
            forall|i: int|
                0 <= i < out@.len() ==> #[trigger] src[i] == (
                    out@[i].0,
                    FieldValue::Scalar(out@[i].1),
                ),
        decreases rest@.len(),
    {
        if rest.len() == 0 {
            return Ok(out);
        }
        let ghost k = out@.len() as int;
        let (key, value) = rest.remove(0);
        proof {
            assert(src.skip(k)[0] == src[k]);
            assert(rest@ =~= src.skip(k + 1));
        }
        match value {
            FieldValue::Scalar(s) => {
                out.push((key, s));
            },
            FieldValue::Object(_) => {
                proof {
                    assert(!(src[k].1 is Scalar));
                }
                return Err(ValidationError::Malformed);
            },
        }
    }
}

impl BlockUserFromCommunity {
    /// Lay the block out as its ordered wire field list; the extension
    /// bag follows the known fields verbatim.
    pub fn into_fields(self) -> (r: Vec<(String, ScalarValue)>)
        requires
            self.wf(),
        ensures
            block_wire_shape(r@),
            block_matches_fields(self, r@),
    {
        let mut out: Vec<(String, ScalarValue)> = Vec::new();
        out.push(("actor".to_owned(), ScalarValue::Text(self.actor)));
        out.push(("to".to_owned(), ScalarValue::TextList(self.to)));
        out.push(("object".to_owned(), ScalarValue::Text(self.object)));
        out.push(("cc".to_owned(), ScalarValue::TextList(self.cc)));
        out.push(("type".to_owned(), ScalarValue::Text("Block".to_owned())));
        out.push(("id".to_owned(), ScalarValue::Text(self.id)));
        out.push(("@context".to_owned(), ScalarValue::Raw(self.context)));
        let mut extras = self.unparsed;
        out.append(&mut extras);
        proof {
            assert(out@.skip(7) =~= self.unparsed@);
        }
        out
    }

    /// Parse a block back from its wire field list.  Succeeds exactly on
    /// the layout `into_fields` emits, restoring each field; everything
    /// past the known fields becomes the extension bag unchanged.
    pub fn from_fields(fields: Vec<(String, ScalarValue)>) -> (r: Result<
        BlockUserFromCommunity,
        ValidationError,
    >)
        ensures
            match r {
                Result::Ok(b) => block_wire_shape(fields@) && block_matches_fields(b, fields@)
                    && b.wf(),
                Result::Err(e) => e == ValidationError::Malformed && !block_wire_shape(fields@),
            },
    {
        let ghost orig = fields@;
        let mut rest = fields;
        if rest.len() < 7 {
            return Err(ValidationError::Malformed);
        }
        proof {
            assert(rest@ =~= orig.skip(0));
        }
        let (k0, v0) = rest.remove(0);
        proof {
            assert(orig.skip(0)[0] == orig[0]);
            assert(rest@ =~= orig.skip(1));
        }
        if !(k0 == "actor".to_owned()) {
            return Err(ValidationError::Malformed);
        }
        let actor = match v0 {
            ScalarValue::Text(s) => s,
            _ => {
                return Err(ValidationError::Malformed);
            },
        };
        let (k1, v1) = rest.remove(0);
        proof {
            assert(orig.skip(1)[0] == orig[1]);
            assert(rest@ =~= orig.skip(2));
        }
        if !(k1 == "to".to_owned()) {
            return Err(ValidationError::Malformed);
        }
        let to = match v1 {
            ScalarValue::TextList(v) => v,
            _ => {
                return Err(ValidationError::Malformed);
            },
        };
        let (k2, v2) = rest.remove(0);
        proof {
            assert(orig.skip(2)[0] == orig[2]);
            assert(rest@ =~= orig.skip(3));
        }
        if !(k2 == "object".to_owned()) {
            return Err(ValidationError::Malformed);
        }
        let object = match v2 {
            ScalarValue::Text(s) => s,
            _ => {
                return Err(ValidationError::Malformed);
            },
        };
        let (k3, v3) = rest.remove(0);
        proof {
            assert(orig.skip(3)[0] == orig[3]);
            assert(rest@ =~= orig.skip(4));
        }
        if !(k3 == "cc".to_owned()) {
            return Err(ValidationError::Malformed);
        }
        let cc = match v3 {
            ScalarValue::TextList(v) => v,
            _ => {
                return Err(ValidationError::Malformed);
            },
        };
        let (k4, v4) = rest.remove(0);
        proof {
            assert(orig.skip(4)[0] == orig[4]);
            assert(rest@ =~= orig.skip(5));
        }
        if !(k4 == "type".to_owned()) {
            return Err(ValidationError::Malformed);
        }
        match v4 {
            ScalarValue::Text(s) => {
                if !(s == "Block".to_owned()) {
                    return Err(ValidationError::Malformed);
                }
            },
            _ => {
                return Err(ValidationError::Malformed);
            },
        }
        let (k5, v5) = rest.remove(0);
        proof {
            assert(orig.skip(5)[0] == orig[5]);
            assert(rest@ =~= orig.skip(6));
        }
        if !(k5 == "id".to_owned()) {
            return Err(ValidationError::Malformed);
        }
        let id = match v5 {
            ScalarValue::Text(s) => s,
            _ => {
                return Err(ValidationError::Malformed);
            },
        };
        let (k6, v6) = rest.remove(0);
        proof {
            assert(orig.skip(6)[0] == orig[6]);
            assert(rest@ =~= orig.skip(7));
        }
        if !(k6 == "@context".to_owned()) {
            return Err(ValidationError::Malformed);
        }
        let context = match v6 {
            ScalarValue::Raw(s) => s,
            _ => {
                return Err(ValidationError::Malformed);
            },
        };
        let b = BlockUserFromCommunity {
            actor,
            to,
            object,
            cc,
            kind: ActivityKind::Block,
            id,
            context,
            unparsed: rest,
        };
        Ok(b)
    }
}

impl UndoBlockUserFromCommunity {
    /// Lay the undo out as its ordered wire field list: the known fields
    /// with the nested block as an object, then the extension bag.
    pub fn into_fields(self) -> (r: Vec<(String, FieldValue)>)
        requires
            self.wf(),
        ensures
            undo_wire_shape(r@),
            undo_matches_fields(self, r@),
    {
        let mut out: Vec<(String, FieldValue)> = Vec::new();
        out.push(("actor".to_owned(), FieldValue::Scalar(ScalarValue::Text(self.actor))));
        out.push(("to".to_owned(), FieldValue::Scalar(ScalarValue::TextList(self.to))));
        out.push(("object".to_owned(), FieldValue::Object(self.object.into_fields())));
        out.push(("cc".to_owned(), FieldValue::Scalar(ScalarValue::TextList(self.cc))));
        out.push(("type".to_owned(), FieldValue::Scalar(ScalarValue::Text("Undo".to_owned()))));
        out.push(("id".to_owned(), FieldValue::Scalar(ScalarValue::Text(self.id))));
        out.push(("@context".to_owned(), FieldValue::Scalar(ScalarValue::Raw(self.context))));
        let mut extras = rewrap_extras(self.unparsed);
        out.append(&mut extras);
        out
    }

    /// Parse an undo back from its wire field list.  Succeeds exactly on
    /// the layout `into_fields` emits, restoring each field; everything
    /// past the known fields becomes the extension bag unchanged.
    pub fn from_fields(fields: Vec<(String, FieldValue)>) -> (r: Result<
        UndoBlockUserFromCommunity,
        ValidationError,
    >)
        ensures
            match r {
                Result::Ok(u) => undo_wire_shape(fields@) && undo_matches_fields(u, fields@)
                    && u.wf(),
                Result::Err(e) => e == ValidationError::Malformed && !undo_wire_shape(fields@),
            },
    {
        let ghost orig = fields@;
        let mut rest = fields;
        if rest.len() < 7 {
            return Err(ValidationError::Malformed);
        }
        proof {
            assert(rest@ =~= orig.skip(0));
        }
        let (k0, v0) = rest.remove(0);
        proof {
            assert(orig.skip(0)[0] == orig[0]);
            assert(rest@ =~= orig.skip(1));
        }
        if !(k0 == "actor".to_owned()) {
            return Err(ValidationError::Malformed);
        }
        let actor = match v0 {
            FieldValue::Scalar(ScalarValue::Text(s)) => s,
            _ => {
                return Err(ValidationError::Malformed);
            },
        };
        let (k1, v1) = rest.remove(0);
        proof {
            assert(orig.skip(1)[0] == orig[1]);
            assert(rest@ =~= orig.skip(2));
        }
        if !(k1 == "to".to_owned()) {
            return Err(ValidationError::Malformed);
        }
        let to = match v1 {
            FieldValue::Scalar(ScalarValue::TextList(v)) => v,
            _ => {
                return Err(ValidationError::Malformed);
            },
        };
        let (k2, v2) = rest.remove(0);
        proof {
            assert(orig.skip(2)[0] == orig[2]);
            assert(rest@ =~= orig.skip(3));
        }
        if !(k2 == "object".to_owned()) {
            return Err(ValidationError::Malformed);
        }
        let object = match v2 {
            FieldValue::Object(bs) => match BlockUserFromCommunity::from_fields(bs) {
                Result::Ok(b) => b,
                Result::Err(_) => {
                    return Err(ValidationError::Malformed);
                },
            },
            _ => {
                return Err(ValidationError::Malformed);
            },
        };
        let (k3, v3) = rest.remove(0);
        proof {
            assert(orig.skip(3)[0] == orig[3]);
            assert(rest@ =~= orig.skip(4));
        }
        if !(k3 == "cc".to_owned()) {
            return Err(ValidationError::Malformed);
        }
        let cc = match v3 {
            FieldValue::Scalar(ScalarValue::TextList(v)) => v,
            _ => {
                return Err(ValidationError::Malformed);
            },
        };
        let (k4, v4) = rest.remove(0);
        proof {
            assert(orig.skip(4)[0] == orig[4]);
            assert(rest@ =~= orig.skip(5));
        }
        if !(k4 == "type".to_owned()) {
            return Err(ValidationError::Malformed);
        }
        match v4 {
            FieldValue::Scalar(ScalarValue::Text(s)) => {
                if !(s == "Undo".to_owned()) {
                    return Err(ValidationError::Malformed);
                }
            },
            _ => {
                return Err(ValidationError::Malformed);
            },
        }
        let (k5, v5) = rest.remove(0);
        proof {
            assert(orig.skip(5)[0] == orig[5]);
            assert(rest@ =~= orig.skip(6));
        }
        if !(k5 == "id".to_owned()) {
            return Err(ValidationError::Malformed);
        }
        let id = match v5 {
            FieldValue::Scalar(ScalarValue::Text(s)) => s,
            _ => {
                return Err(ValidationError::Malformed);
            },
        };
        let (k6, v6) = rest.remove(0);
        proof {
            assert(orig.skip(6)[0] == orig[6]);
            assert(rest@ =~= orig.skip(7));
        }
        if !(k6 == "@context".to_owned()) {
            return Err(ValidationError::Malformed);
        }
        let context = match v6 {
            FieldValue::Scalar(ScalarValue::Raw(s)) => s,
            _ => {
                return Err(ValidationError::Malformed);
            },
        };
        let unparsed = match unwrap_extras(rest) {
            Result::Ok(v) => v,
            Result::Err(e) => {
                return Err(e);
            },
        };
        proof {
            assert forall|i: int| 7 <= i < orig.len() implies #[trigger] orig[i] == (
                unparsed@[i - 7].0,
                FieldValue::Scalar(unparsed@[i - 7].1),
            ) by {
                assert(orig.skip(7)[i - 7] == orig[i]);
            }
            assert forall|i: int| 7 <= i < orig.len() implies (#[trigger] orig[i]).1 is Scalar by {
                assert(orig[i] == (unparsed@[i - 7].0, FieldValue::Scalar(unparsed@[i - 7].1)));
            }
        }
        let u = UndoBlockUserFromCommunity {
            actor,
            to,
            object,
            cc,
            kind: ActivityKind::Undo,
            id,
            context,
            unparsed,
        };
        Ok(u)
    }
}

/// Two blocks denoted by one field list: they agree on every field, the
/// extension bags element for element.
pub open spec fn same_block(a: BlockUserFromCommunity, b: BlockUserFromCommunity) -> bool {
    &&& a.actor == b.actor
    &&& a.to == b.to
    &&& a.object == b.object
    &&& a.cc == b.cc
    &&& a.kind == b.kind
    &&& a.id == b.id
    &&& a.context == b.context
    &&& a.unparsed@ == b.unparsed@
}

/// Two undos denoted by one field list: they agree on every field, the
/// extension bags element for element.
pub open spec fn same_undo(a: UndoBlockUserFromCommunity, b: UndoBlockUserFromCommunity) -> bool {
    &&& a.actor == b.actor
    &&& a.to == b.to
    &&& same_block(a.object, b.object)
    &&& a.cc == b.cc
    &&& a.kind == b.kind
    &&& a.id == b.id
    &&& a.context == b.context
    &&& a.unparsed@ == b.unparsed@
}

/// Round trip: a field list denotes at most one block, so parsing back a
/// serialized block restores it — extension fields bit for bit.
pub proof fn lemma_block_round_trip(
    b: BlockUserFromCommunity,
    bs: Seq<(String, ScalarValue)>,
    b2: BlockUserFromCommunity,
)
    requires
        block_matches_fields(b, bs),
        block_matches_fields(b2, bs),
    ensures
        same_block(b2, b),
{
}

/// Round trip: a field list denotes at most one undo, so parsing back a
/// serialized undo restores it — extension fields bit for bit, the
/// nested block included.
pub proof fn lemma_undo_round_trip(
    u: UndoBlockUserFromCommunity,
    fs: Seq<(String, FieldValue)>,
    u2: UndoBlockUserFromCommunity,
)
    requires
        undo_wire_shape(fs),
        undo_matches_fields(u, fs),
        undo_matches_fields(u2, fs),
    ensures
        same_undo(u2, u),
{
    assert(u2.unparsed@ =~= u.unparsed@) by {
        assert(u.unparsed@.len() == u2.unparsed@.len());
        assert forall|j: int| 0 <= j < u.unparsed@.len() implies u2.unparsed@[j] == u.unparsed@[j] by {
            assert(fs[j + 7] == (u.unparsed@[j].0, FieldValue::Scalar(u.unparsed@[j].1)));
            assert(fs[j + 7] == (u2.unparsed@[j].0, FieldValue::Scalar(u2.unparsed@[j].1)));
            assert(u.unparsed@[j].0 == u2.unparsed@[j].0);
            assert(u.unparsed@[j].1 == u2.unparsed@[j].1);
            assert(u2.unparsed@[j] =~= u.unparsed@[j]);
        }
    }
}

} // verus!
