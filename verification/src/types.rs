//! The catalog's data records.

use vstd::prelude::*;

verus! {

/// A catalog item as the backend delivers it.
///
/// The price is carried as decimal text, exactly as it is shown.
#[derive(Debug, PartialEq, Eq)]
pub struct Product {
    pub id: i32,
    pub name: String,
    pub description: String,
    pub price: String,
    pub image: String,
}

/// The mathematical value of a [`Product`].
pub struct ProductModel {
    pub id: i32,
    pub name: Seq<char>,
    pub description: Seq<char>,
    pub price: Seq<char>,
    pub image: Seq<char>,
}

impl View for Product {
    type V = ProductModel;

    open spec fn view(&self) -> ProductModel {
        ProductModel {
            id: self.id,
            name: self.name@,
            description: self.description@,
            price: self.price@,
            image: self.image@,
        }
    }
}

impl Clone for Product {
    /// A copy is indistinguishable from the record it was made from.
    fn clone(&self) -> (copy: Product)
        ensures
            copy == *self,
    {
        Product {
            id: self.id,
            name: self.name.clone(),
            description: self.description.clone(),
            price: self.price.clone(),
            image: self.image.clone(),
        }
    }
}

/// The value of an optional product.
pub open spec fn product_model(product: Option<Product>) -> Option<ProductModel> {
    match product {
        Some(p) => Some(p@),
        None => None,
    }
}

} // verus!
