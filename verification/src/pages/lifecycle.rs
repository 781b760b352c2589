//! The fetch lifecycle of a detail page, as a state machine over plain
//! values.
//!
//! A page is created for one product identifier. Creation schedules a
//! single `GetProduct` message; handling it issues the one request of the
//! page's life. The request later ends in exactly one completion message,
//! carrying either the product or the reason there is none.

use vstd::prelude::*;
use yew::callback::Callback;

use crate::api::{FetchError, FetchRequest};
use crate::types::{Product, ProductModel};

verus! {

/// The value of a message delivered to a page.
pub enum MsgModel {
    GetProduct,
    GetProductSuccess(ProductModel),
    GetProductError(FetchError),
}

impl MsgModel {
    /// Whether the message reports the end of a request.
    pub open spec fn is_completion(self) -> bool {
        self is GetProductSuccess || self is GetProductError
    }
}

/// What a page has learned from its request so far.
pub struct StateModel {
    pub product: Option<ProductModel>,
    pub error: Option<FetchError>,
    pub loaded: bool,
}

/// The value of a page instance.
pub struct DetailModel {
    /// The identifier the page was created for.
    pub id: i32,
    /// The callback the page was created with, for its add-to-cart control.
    pub on_add_to_cart: Callback<Product>,
    pub state: StateModel,
    /// The request the page has issued, if any. It is kept for as long as
    /// the page lives.
    pub task: Option<FetchRequest>,
}

/// Where a page stands in its lifecycle.
pub enum Phase {
    /// Created; the request has not been issued yet.
    Init,
    /// The request is under way.
    Loading,
    /// A product has been delivered.
    Success,
    /// The request has ended and there is no product.
    Failure,
}

impl DetailModel {
    /// The phase a page is in: a stored product means success, whatever
    /// else is stored; without one, the loaded flag tells failure from
    /// waiting, and the recorded request tells waiting from not yet asked.
    pub open spec fn phase(self) -> Phase {
        if self.state.product is Some {
            Phase::Success
        } else if self.state.loaded {
            Phase::Failure
        } else if self.task is Some {
            Phase::Loading
        } else {
            Phase::Init
        }
    }

    /// The loaded flag is set exactly when an outcome has been stored.
    pub open spec fn wf(self) -> bool {
        self.state.loaded <==> (self.state.product is Some || self.state.error is Some)
    }

    /// A product and an error are never held together.
    pub open spec fn exclusive(self) -> bool {
        !(self.state.product is Some && self.state.error is Some)
    }
}

/// The page as it is right after creation for `id`, with `on_add_to_cart`
/// to hand to its add-to-cart control.
pub open spec fn created(id: i32, on_add_to_cart: Callback<Product>) -> DetailModel {
    DetailModel {
        id,
        on_add_to_cart,
        state: StateModel { product: None, error: None, loaded: false },
        task: None,
    }
}

/// The message that creation schedules for the new page.
pub open spec fn scheduled_on_mount() -> MsgModel {
    MsgModel::GetProduct
}

/// The messages a page receives in its life: the one that creation
/// schedules, then the completion of its request once that has arrived.
pub open spec fn mount_trace(completion: Option<MsgModel>) -> Seq<MsgModel> {
    match completion {
        Some(msg) => seq![scheduled_on_mount(), msg],
        None => seq![scheduled_on_mount()],
    }
}

/// The effect of handling one message.
pub struct Transition {
    /// The page afterwards.
    pub next: DetailModel,
    /// Whether the page has to be drawn again.
    pub should_render: bool,
    /// The request to send, if handling the message issued one.
    pub request: Option<FetchRequest>,
}

/// How a page handles `msg`.
///
/// `GetProduct` issues a request for the page's identifier and records it.
/// A completion stores what it carries and marks the page as loaded; it
/// leaves the other outcome slot and the recorded request alone. No message
/// touches the identifier or the callback.
pub open spec fn transition(m: DetailModel, msg: MsgModel) -> Transition {
    match msg {
        MsgModel::GetProduct => Transition {
            next: DetailModel { task: Some(FetchRequest { id: m.id }), ..m },
            should_render: true,
            request: Some(FetchRequest { id: m.id }),
        },
        MsgModel::GetProductSuccess(product) => Transition {
            next: DetailModel {
                state: StateModel { product: Some(product), loaded: true, ..m.state },
                ..m
            },
            should_render: true,
            request: None,
        },
        MsgModel::GetProductError(error) => Transition {
            next: DetailModel {
                state: StateModel { error: Some(error), loaded: true, ..m.state },
                ..m
            },
            should_render: true,
            request: None,
        },
    }
}

/// The page after handling `msgs` in order.
pub open spec fn run(m: DetailModel, msgs: Seq<MsgModel>) -> DetailModel
    decreases msgs.len(),
{
    if msgs.len() == 0 {
        m
    } else {
        transition(run(m, msgs.drop_last()), msgs.last()).next
    }
}

/// The requests issued while handling `msgs` in order, oldest first.
pub open spec fn requests(m: DetailModel, msgs: Seq<MsgModel>) -> Seq<FetchRequest>
    decreases msgs.len(),
{
    if msgs.len() == 0 {
        Seq::empty()
    } else {
        let so_far = requests(m, msgs.drop_last());
        match transition(run(m, msgs.drop_last()), msgs.last()).request {
            Some(request) => so_far.push(request),
            None => so_far,
        }
    }
}

/// How many of `msgs` report the end of a request.
pub open spec fn completions(msgs: Seq<MsgModel>) -> nat
    decreases msgs.len(),
{
    if msgs.len() == 0 {
        0
    } else if msgs.last().is_completion() {
        completions(msgs.drop_last()) + 1
    } else {
        completions(msgs.drop_last())
    }
}

} // verus!
