//! The product detail page: it asks for one product when it is mounted and
//! shows a placeholder, the product, or a failure notice, depending on how
//! far the request has come.
//!
//! The page decides; it performs nothing itself. Whoever hosts it delivers
//! the message that [`ProductDetail::create`] schedules, sends the request
//! that [`ProductDetail::update`] hands back, turns the response into a
//! message with [`Msg::from_response`], and draws what
//! [`ProductDetail::view`] describes.

use vstd::prelude::*;
use yew::callback::Callback;

use crate::api::{FetchError, FetchRequest};
use crate::pages::lifecycle::{
    created, scheduled_on_mount, transition, DetailModel, MsgModel, StateModel,
};
use crate::pages::rendering::{render, DetailContent, Rendered};
use crate::types::{product_model, Product};

verus! {

/// What a page is mounted with.
#[derive(Debug, PartialEq)]
pub struct Props {
    /// The identifier of the product to show.
    pub id: i32,
    /// Who wants to hear of products that are added to the cart.
    pub on_add_to_cart: Callback<Product>,
}

impl Clone for Props {
    /// A copy names the same product and the same callback.
    fn clone(&self) -> (copy: Props)
        ensures
            copy == *self,
    {
        Props { id: self.id, on_add_to_cart: self.on_add_to_cart.clone() }
    }
}

/// The page that mounting with `props` creates.
pub open spec fn mounted(props: Props) -> DetailModel {
    created(props.id, props.on_add_to_cart)
}

/// The messages a page handles.
#[derive(Debug, PartialEq, Eq)]
pub enum Msg {
    /// Ask the backend for the product.
    GetProduct,
    /// The request ended with this product.
    GetProductSuccess(Product),
    /// The request ended without a product.
    GetProductError(FetchError),
}

impl View for Msg {
    type V = MsgModel;

    open spec fn view(&self) -> MsgModel {
        match self {
            Msg::GetProduct => MsgModel::GetProduct,
            Msg::GetProductSuccess(product) => MsgModel::GetProductSuccess(product@),
            Msg::GetProductError(error) => MsgModel::GetProductError(*error),
        }
    }
}

impl Msg {
    /// The message that reports how a request ended: the product if one was
    /// decoded, the error otherwise. Transport and decoding failures travel
    /// the same way.
    pub fn from_response(data: Result<Product, FetchError>) -> (msg: Msg)
        ensures
            msg == (match data {
                Ok(product) => Msg::GetProductSuccess(product),
                Err(error) => Msg::GetProductError(error),
            }),
            msg@.is_completion(),
    {
        match data {
            Ok(product) => Msg::GetProductSuccess(product),
            Err(error) => Msg::GetProductError(error),
        }
    }
}

/// What handling a message asks of the host.
#[derive(Debug, Clone, Copy, PartialEq, Eq, Structural)]
pub struct Update {
    /// Whether the page has to be drawn again.
    pub should_render: bool,
    /// The request to send to the backend, if the message issued one.
    pub request: Option<FetchRequest>,
}

struct State {
    product: Option<Product>,
    get_product_error: Option<FetchError>,
    get_product_loaded: bool,
}

/// A mounted product detail page.
pub struct ProductDetail {
    props: Props,
    state: State,
    task: Option<FetchRequest>,
}

impl ProductDetail {
    /// The value of the page.
    pub closed spec fn model(&self) -> DetailModel {
        DetailModel {
            id: self.props.id,
            on_add_to_cart: self.props.on_add_to_cart,
            state: StateModel {
                product: product_model(self.state.product),
                error: self.state.get_product_error,
                loaded: self.state.get_product_loaded,
            },
            task: self.task,
        }
    }

    /// Mounts a page for `props.id`. The page starts with nothing loaded and
    /// no request issued; the returned message is to be delivered to it
    /// before anything else.
    pub fn create(props: Props) -> (fresh: (ProductDetail, Msg))
        ensures
            fresh.0.model() == mounted(props),
            fresh.0.model().wf(),
            fresh.1@ == scheduled_on_mount(),
    {
        let page = ProductDetail {
            props,
            state: State { product: None, get_product_error: None, get_product_loaded: false },
            task: None,
        };
        (page, Msg::GetProduct)
    }

    /// Handles one message, as [`transition`] describes, and reports what the
    /// host has to do.
    pub fn update(&mut self, message: Msg) -> (outcome: Update)
        ensures
            final(self).model() == transition(old(self).model(), message@).next,
            outcome.should_render == transition(old(self).model(), message@).should_render,
            outcome.request == transition(old(self).model(), message@).request,
            old(self).model().wf() ==> final(self).model().wf(),
            old(self).model().state.loaded ==> final(self).model().state.loaded,
    {
        match message {
            Msg::GetProduct => {
                let request = FetchRequest { id: self.props.id };
                self.task = Some(request);
                Update { should_render: true, request: Some(request) }
            },
            Msg::GetProductSuccess(product) => {
                self.state.product = Some(product);
                self.state.get_product_loaded = true;
                Update { should_render: true, request: None }
            },
            Msg::GetProductError(error) => {
                self.state.get_product_error = Some(error);
                self.state.get_product_loaded = true;
                Update { should_render: true, request: None }
            },
        }
    }

    /// Offers the page new properties. A mounted page keeps the identifier
    /// and the callback it was created with: nothing changes, no request is
    /// issued, and no redraw is asked for. So a page that is reused for
    /// another product keeps showing the one it was mounted for; a host that
    /// wants another product shown mounts another page.
    pub fn change(&mut self, _props: Props) -> (should_render: bool)
        ensures
            !should_render,
            *final(self) == *old(self),
    {
        false
    }

    /// The identifier the page was created for.
    pub fn id(&self) -> (id: i32)
        ensures
            id == self.model().id,
    {
        self.props.id
    }

    /// The callback the page was created with.
    pub fn on_add_to_cart(&self) -> (callback: &Callback<Product>)
        ensures
            *callback == self.model().on_add_to_cart,
    {
        &self.props.on_add_to_cart
    }

    /// Whether the request has ended, one way or the other.
    pub fn is_loaded(&self) -> (loaded: bool)
        ensures
            loaded == self.model().state.loaded,
    {
        self.state.get_product_loaded
    }

    /// The product that was delivered, if one was.
    pub fn product(&self) -> (product: Option<&Product>)
        ensures
            match product {
                Some(stored) => self.model().state.product == Some(stored@),
                None => self.model().state.product is None,
            },
    {
        self.state.product.as_ref()
    }

    /// The error the request ended with, if it ended with one.
    pub fn error(&self) -> (error: Option<FetchError>)
        ensures
            error == self.model().state.error,
    {
        self.state.get_product_error
    }

    /// The request the page has issued, if it has issued one.
    pub fn task(&self) -> (task: Option<FetchRequest>)
        ensures
            task == self.model().task,
    {
        self.task
    }

    /// Describes what the page shows right now.
    pub fn view(&self) -> (out: Rendered)
        ensures
            out@ == render(self.model()),
    {
        match &self.state.product {
            Some(product) => Rendered::Detail(
                DetailContent::of(product, &self.props.on_add_to_cart),
            ),
            None => if !self.state.get_product_loaded {
                Rendered::Loading
            } else {
                Rendered::Error
            },
        }
    }
}

} // verus!
