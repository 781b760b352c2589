//! Presentational controls shared by the pages.

use vstd::prelude::*;
use yew::callback::Callback;

use crate::types::{Product, ProductModel};

verus! {

/// The add-to-cart control: stateless, bound to the product it was rendered
/// for and to the callback that wants to hear of it.
#[derive(Debug, PartialEq)]
pub struct AtcButton {
    pub product: Product,
    pub on_add_to_cart: Callback<Product>,
}

/// The value of an [`AtcButton`].
pub struct AtcButtonModel {
    pub product: ProductModel,
    pub on_add_to_cart: Callback<Product>,
}

impl View for AtcButton {
    type V = AtcButtonModel;

    open spec fn view(&self) -> AtcButtonModel {
        AtcButtonModel { product: self.product@, on_add_to_cart: self.on_add_to_cart }
    }
}

impl AtcButton {
    /// Binds a control to `product` and `on_add_to_cart`.
    pub fn new(product: Product, on_add_to_cart: Callback<Product>) -> (button: AtcButton)
        ensures
            button.product == product,
            button.on_add_to_cart == on_add_to_cart,
    {
        AtcButton { product, on_add_to_cart }
    }

    /// What one activation asks of the host: to call the bound callback
    /// with a copy of the bound product. The control itself is left as it
    /// was, so every activation asks for the same.
    pub fn activate(&self) -> (emit: (&Callback<Product>, Product))
        ensures
            *emit.0 == self.on_add_to_cart,
            emit.1 == self.product,
    {
        (&self.on_add_to_cart, self.product.clone())
    }
}

} // verus!
