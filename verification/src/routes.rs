//! What the service answers to each of its two requests.

use vstd::prelude::*;
use crate::gateway::PersistError;
use crate::order::{Order, OrderView};

verus! {

/// The status of an answer to a request that was served.
pub const STATUS_OK: u16 = 200;

/// The status of an answer to a request that failed on the service's side.
pub const STATUS_INTERNAL_SERVER_ERROR: u16 = 500;

/// What an answer carries.
#[derive(Debug, PartialEq, Eq)]
pub enum Body {
    /// A plain sentence.
    Text(&'static str),
    /// An order, to be written out as a document.
    Order(Order),
    /// A document with one entry, `message`, that holds this sentence.
    Message(&'static str),
}

/// The mathematical value of a [`Body`].
pub ghost enum BodyView {
    Text(Seq<char>),
    Order(OrderView),
    Message(Seq<char>),
}

impl View for Body {
    type V = BodyView;

    open spec fn view(&self) -> BodyView {
        match self {
            Body::Text(text) => BodyView::Text(text@),
            Body::Order(order) => BodyView::Order(order@),
            Body::Message(text) => BodyView::Message(text@),
        }
    }
}

/// The answer to one request.
#[derive(Debug, PartialEq, Eq)]
pub struct Reply {
    /// The status code.
    pub status: u16,
    /// What the answer carries.
    pub body: Body,
}

/// The mathematical value of a [`Reply`].
pub ghost struct ReplyView {
    pub status: u16,
    pub body: BodyView,
}

impl View for Reply {
    type V = ReplyView;

    open spec fn view(&self) -> ReplyView {
        ReplyView { status: self.status, body: self.body@ }
    }
}

/// The answer to a request that sent an order, from how adding it ended.
/// A failure to save is the service's own failure; its cause is not told.
pub fn send_order(added: &Result<(), PersistError>) -> (reply: Reply)
    ensures
        added is Ok ==> reply@ == (ReplyView {
            status: 200,
            body: BodyView::Text("Order received!"@),
        }),
        added is Err ==> reply@ == (ReplyView {
            status: 500,
            body: BodyView::Text("Failed to save order to database"@),
        }),
{
    match added {
        Ok(_) => Reply { status: STATUS_OK, body: Body::Text("Order received!") },
        Err(_) => Reply {
            status: STATUS_INTERNAL_SERVER_ERROR,
            body: Body::Text("Failed to save order to database"),
        },
    }
}

/// The answer to a request for the last order. That there is none yet is no
/// failure: the answer then carries a message that says so.
pub fn get_order(last: Option<Order>) -> (reply: Reply)
    ensures
        reply@.status == 200,
        match last {
            Some(order) => reply@.body == BodyView::Order(order@),
            None => reply@.body == BodyView::Message("No orders yet"@),
        },
{
    match last {
        Some(order) => Reply { status: STATUS_OK, body: Body::Order(order) },
        None => Reply { status: STATUS_OK, body: Body::Message("No orders yet") },
    }
}

} // verus!
