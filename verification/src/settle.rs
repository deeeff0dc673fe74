//! The three common ways a backend reply becomes the payload, the count and
//! the sentence of an envelope.

use crate::backend::{
    failure_error, is_failure_error, is_unexpected_reply, unexpected_reply, BackendFailure,
    Reply,
};
use crate::error::RouterError;
use crate::json::{item_views, Json, JsonView};
use crate::text::{counted, decimal};
use vstd::prelude::*;
use vstd::string::*;

verus! {

/// What an operation expects of the backend's reply.
#[derive(Clone, Copy, Debug, PartialEq, Eq, Structural)]
pub enum ReplyShape {
    /// A list of entities: the payload is the list, the count its length.
    Listing,
    /// One entity, passed on as the payload.
    Entity,
    /// Nothing is read from the reply.
    Acknowledge,
}

/// The words of an operation's envelope and errors.
#[derive(Clone, Copy, Debug)]
pub struct Wording {
    /// The operation's name on the wire.
    pub operation: &'static str,
    /// What the router was doing when the backend failed.
    pub context: &'static str,
    /// The sentence for a reply that is not counted.
    pub fixed: &'static str,
    /// The words before the count of a listing.
    pub before: &'static str,
    /// The words after the count of a listing.
    pub after: &'static str,
}

/// The parts of an envelope that are read from the reply.
#[derive(Debug, PartialEq, Eq)]
pub struct Settled {
    pub data: Option<Json>,
    pub count: Option<usize>,
    pub message: String,
}

/// The sentence for a listing of `n` items.
pub open spec fn counted_message(words: Wording, n: nat) -> Seq<char> {
    words.before@ + decimal(n) + words.after@
}

/// Whether the reply is of the shape that `shape` reads.
pub open spec fn fits(shape: ReplyShape, reply: Reply) -> bool {
    match shape {
        ReplyShape::Listing => reply is Entities,
        ReplyShape::Entity => reply is Entity,
        ReplyShape::Acknowledge => true,
    }
}

/// The payload that `shape` reads from a reply that fits it.
pub open spec fn read_data(shape: ReplyShape, reply: Reply) -> Option<Json> {
    match shape {
        ReplyShape::Listing => Some(Json::Array(reply->Entities_0)),
        ReplyShape::Entity => Some(reply->Entity_0),
        ReplyShape::Acknowledge => None,
    }
}

/// The count that `shape` reads from a reply that fits it: the length of a
/// listing, and nothing otherwise.
pub open spec fn read_count(shape: ReplyShape, reply: Reply) -> Option<usize> {
    match shape {
        ReplyShape::Listing => Some(reply->Entities_0@.len() as usize),
        _ => None,
    }
}

/// The sentence for a reply that fits `shape`.
pub open spec fn read_message(shape: ReplyShape, words: Wording, reply: Reply) -> Seq<char> {
    match shape {
        ReplyShape::Listing => counted_message(words, reply->Entities_0@.len()),
        _ => words.fixed@,
    }
}

/// Whether `r` is what `shape` makes of `reply`: the failure's error, the
/// parts read from a reply that fits, and a backend failure for a reply that
/// does not fit.
pub open spec fn is_settled(
    shape: ReplyShape,
    words: Wording,
    subject: Seq<char>,
    reply: Result<Reply, BackendFailure>,
    r: Result<Settled, RouterError>,
) -> bool {
    match reply {
        Err(failure) => r matches Err(e) && is_failure_error(
            e,
            words.operation@,
            words.context@,
            subject,
            failure,
        ),
        Ok(received) => if fits(shape, received) {
            r matches Ok(s) && s.data == read_data(shape, received) && s.count == read_count(
                shape,
                received,
            ) && s.message@ == read_message(shape, words, received)
        } else {
            r matches Err(e) && is_unexpected_reply(e, words.operation@, words.context@)
        },
    }
}

/// Reads the reply in the way `shape` asks for.  A failure becomes the error
/// of its class, and a reply of another shape is a backend failure.
pub fn settle(
    shape: ReplyShape,
    words: Wording,
    subject: &str,
    reply: Result<Reply, BackendFailure>,
) -> (r: Result<Settled, RouterError>)
    ensures
        is_settled(shape, words, subject@, reply, r),
{
    match reply {
        Err(failure) => Err(failure_error(words.operation, words.context, subject, &failure)),
        Ok(reply) => match shape {
            ReplyShape::Listing => match reply {
                Reply::Entities(items) => {
                    let n = items.len();
                    let message = counted(words.before, n as u64, words.after);
                    Ok(Settled { data: Some(Json::array(items)), count: Some(n), message })
                },
                _ => Err(unexpected_reply(words.operation, words.context)),
            },
            ReplyShape::Entity => match reply {
                Reply::Entity(entity) => Ok(
                    Settled {
                        data: Some(entity),
                        count: None,
                        message: String::from_str(words.fixed),
                    },
                ),
                _ => Err(unexpected_reply(words.operation, words.context)),
            },
            ReplyShape::Acknowledge => Ok(
                Settled { data: None, count: None, message: String::from_str(words.fixed) },
            ),
        },
    }
}

/// The payload of a settled listing is the list itself, and its count is the
/// list's length: the count is a view of the payload, never a second source.
pub proof fn lemma_listing_count_is_payload_length(
    words: Wording,
    items: Vec<Json>,
    r: Result<Settled, RouterError>,
)
    requires
        is_settled(ReplyShape::Listing, words, seq![], Ok(Reply::Entities(items)), r),
    ensures
        r matches Ok(s) && s.data matches Some(payload) && payload@ == JsonView::Array(
            item_views(items@),
        ) && s.count == Some(payload@->Array_0.len() as usize),
{
    let s = r->Ok_0;
    let payload = s.data->0;
    assert(payload@->Array_0 =~= item_views(items@));
}

/// Settling is repeatable: whatever is made twice of one reply agrees in
/// payload, count and sentence, or fails twice in the same way.
pub proof fn lemma_settle_is_repeatable(
    shape: ReplyShape,
    words: Wording,
    subject: Seq<char>,
    reply: Result<Reply, BackendFailure>,
    a: Result<Settled, RouterError>,
    b: Result<Settled, RouterError>,
)
    requires
        is_settled(shape, words, subject, reply, a),
        is_settled(shape, words, subject, reply, b),
    ensures
        match (a, b) {
            (Ok(x), Ok(y)) => x.data == y.data && x.count == y.count && x.message@ == y.message@,
            (Err(e), Err(f)) => e.kind_spec() == f.kind_spec() && e.message_spec()
                == f.message_spec(),
            _ => false,
        },
{
}

} // verus!
