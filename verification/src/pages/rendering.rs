//! What a detail page shows, as a description that is independent of any
//! drawing surface.

use vstd::prelude::*;
use yew::callback::Callback;

use crate::components::{AtcButton, AtcButtonModel};
use crate::pages::lifecycle::DetailModel;
use crate::types::{Product, ProductModel};

verus! {

/// Product images are served below this path.
pub const PRODUCTS_PREFIX: &'static str = "/products/";

/// Prices are shown with this symbol in front.
pub const CURRENCY: &'static str = "$";

/// Shown while the product is on its way.
pub const LOADING_TEXT: &'static str = "Loading...";

/// Shown when the request has ended without a product, whatever the reason.
pub const ERROR_TEXT: &'static str = "Error loading product";

/// The presentation of a delivered product.
#[derive(Debug, PartialEq)]
pub struct DetailContent {
    pub image_path: String,
    pub name: String,
    pub description: String,
    pub price: String,
    pub add_to_cart: AtcButton,
}

/// What a detail page shows.
#[derive(Debug, PartialEq)]
pub enum Rendered {
    /// The loading placeholder.
    Loading,
    /// The error placeholder. It carries nothing: neither the error nor any
    /// part of a product reaches the user.
    Error,
    /// The product itself.
    Detail(DetailContent),
}

/// The value of a [`DetailContent`].
pub struct DetailContentModel {
    pub image_path: Seq<char>,
    pub name: Seq<char>,
    pub description: Seq<char>,
    pub price: Seq<char>,
    pub add_to_cart: AtcButtonModel,
}

/// The value of a [`Rendered`].
pub enum RenderedModel {
    Loading,
    Error,
    Detail(DetailContentModel),
}

impl View for DetailContent {
    type V = DetailContentModel;

    open spec fn view(&self) -> DetailContentModel {
        DetailContentModel {
            image_path: self.image_path@,
            name: self.name@,
            description: self.description@,
            price: self.price@,
            add_to_cart: self.add_to_cart@,
        }
    }
}

impl View for Rendered {
    type V = RenderedModel;

    open spec fn view(&self) -> RenderedModel {
        match self {
            Rendered::Loading => RenderedModel::Loading,
            Rendered::Error => RenderedModel::Error,
            Rendered::Detail(content) => RenderedModel::Detail(content@),
        }
    }
}

/// How a product is presented: its image below [`PRODUCTS_PREFIX`], its name
/// and description as they are, its price behind [`CURRENCY`], and an
/// add-to-cart control bound to the product and to `on_add_to_cart`.
pub open spec fn present(
    product: ProductModel,
    on_add_to_cart: Callback<Product>,
) -> DetailContentModel {
    DetailContentModel {
        image_path: PRODUCTS_PREFIX@ + product.image,
        name: product.name,
        description: product.description,
        price: CURRENCY@ + product.price,
        add_to_cart: AtcButtonModel { product, on_add_to_cart },
    }
}

/// What a page shows in state `m`: the product once there is one, the
/// loading placeholder until the request has ended, the error placeholder
/// when it has ended without a product.
pub open spec fn render(m: DetailModel) -> RenderedModel {
    match m.state.product {
        Some(product) => RenderedModel::Detail(present(product, m.on_add_to_cart)),
        None => if m.state.loaded {
            RenderedModel::Error
        } else {
            RenderedModel::Loading
        },
    }
}

impl RenderedModel {
    /// The text a user reads, run by run in document order.
    pub open spec fn text(self) -> Seq<Seq<char>> {
        match self {
            RenderedModel::Loading => seq![LOADING_TEXT@],
            RenderedModel::Error => seq![ERROR_TEXT@],
            RenderedModel::Detail(content) => seq![
                content.name,
                content.description,
                content.price,
            ],
        }
    }
}

/// The values of the strings in `runs`, in order.
pub open spec fn texts(runs: Seq<String>) -> Seq<Seq<char>> {
    runs.map_values(|run: String| run@)
}

impl DetailContent {
    /// Presents `product`, with a control that reports to `on_add_to_cart`.
    pub fn of(product: &Product, on_add_to_cart: &Callback<Product>) -> (content: DetailContent)
        ensures
            content@ == present(product@, *on_add_to_cart),
    {
        let mut image_path = String::from_str(PRODUCTS_PREFIX);
        image_path.append(product.image.as_str());
        let mut price = String::from_str(CURRENCY);
        price.append(product.price.as_str());
        DetailContent {
            image_path,
            name: product.name.clone(),
            description: product.description.clone(),
            price,
            add_to_cart: AtcButton::new(product.clone(), on_add_to_cart.clone()),
        }
    }
}

impl Rendered {
    /// The text a user reads, run by run in document order.
    pub fn text(&self) -> (runs: Vec<String>)
        ensures
            texts(runs@) == self@.text(),
    {
        let mut runs: Vec<String> = Vec::new();
        match self {
            Rendered::Loading => {
                runs.push(String::from_str(LOADING_TEXT));
            },
            Rendered::Error => {
                runs.push(String::from_str(ERROR_TEXT));
            },
            Rendered::Detail(content) => {
                runs.push(content.name.clone());
                runs.push(content.description.clone());
                runs.push(content.price.clone());
            },
        }
        runs
    }
}

} // verus!
