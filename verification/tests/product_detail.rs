use std::cell::RefCell;
use std::rc::Rc;

use storefront::api::{FetchError, FetchRequest};
use storefront::components::AtcButton;
use storefront::pages::product_detail::{Msg, ProductDetail, Props, Update};
use storefront::pages::rendering::{
    DetailContent, Rendered, CURRENCY, ERROR_TEXT, LOADING_TEXT, PRODUCTS_PREFIX,
};
use storefront::types::Product;
use yew::callback::Callback;

fn widget() -> Product {
    Product {
        id: 42,
        name: String::from("Widget"),
        description: String::from("A widget"),
        price: String::from("9.99"),
        image: String::from("widget.png"),
    }
}

fn gadget() -> Product {
    Product {
        id: 43,
        name: String::from("Gadget"),
        description: String::from("A gadget"),
        price: String::from("120"),
        image: String::from("gadgets/g.jpg"),
    }
}

/// A callback that ignores what it is told.
fn deaf() -> Callback<Product> {
    Callback::from(|_: Product| ())
}

/// A callback that records what it is told, and the record.
fn recorder() -> (Callback<Product>, Rc<RefCell<Vec<Product>>>) {
    let heard = Rc::new(RefCell::new(Vec::new()));
    let sink = heard.clone();
    (Callback::from(move |product: Product| sink.borrow_mut().push(product)), heard)
}

fn props(id: i32) -> Props {
    Props { id, on_add_to_cart: deaf() }
}

/// Mounts a page and delivers the message that mounting schedules; returns
/// the page and every request issued on the way.
fn mount(id: i32) -> (ProductDetail, Vec<FetchRequest>) {
    mount_with(props(id))
}

fn mount_with(props: Props) -> (ProductDetail, Vec<FetchRequest>) {
    let (mut page, first) = ProductDetail::create(props);
    let mut issued = Vec::new();
    let outcome = page.update(first);
    if let Some(request) = outcome.request {
        issued.push(request);
    }
    (page, issued)
}

#[test]
fn create_schedules_get_product() {
    let on_add_to_cart = deaf();
    let (page, first) =
        ProductDetail::create(Props { id: 42, on_add_to_cart: on_add_to_cart.clone() });
    assert_eq!(first, Msg::GetProduct);
    assert_eq!(page.id(), 42);
    assert_eq!(page.on_add_to_cart(), &on_add_to_cart);
    assert!(!page.is_loaded());
    assert_eq!(page.product(), None);
    assert_eq!(page.error(), None);
    assert_eq!(page.task(), None);
}

#[test]
fn created_page_shows_loading() {
    let (page, _first) = ProductDetail::create(props(42));
    assert_eq!(page.view(), Rendered::Loading);
    assert!(!page.is_loaded());
}

#[test]
fn mount_issues_exactly_one_fetch_for_the_identifier() {
    for id in [42, 7, 0, 1, -1, i32::MAX, i32::MIN] {
        let (page, issued) = mount(id);
        assert_eq!(issued, vec![FetchRequest { id }]);
        assert_eq!(page.task(), Some(FetchRequest { id }));
        assert_eq!(page.id(), id);
    }
}

#[test]
fn get_product_asks_for_a_redraw_and_a_request() {
    let (mut page, first) = ProductDetail::create(props(5));
    let outcome = page.update(first);
    assert_eq!(
        outcome,
        Update { should_render: true, request: Some(FetchRequest { id: 5 }) }
    );
}

#[test]
fn loading_until_the_fetch_resolves() {
    let (page, _issued) = mount(42);
    assert_eq!(page.view(), Rendered::Loading);
    assert_eq!(page.view().text(), vec![String::from("Loading...")]);
    assert!(!page.is_loaded());
    assert_eq!(page.product(), None);
    assert_eq!(page.error(), None);
}

#[test]
fn success_end_to_end() {
    let on_add_to_cart = deaf();
    let (mut page, issued) = mount_with(Props { id: 42, on_add_to_cart: on_add_to_cart.clone() });
    assert_eq!(issued, vec![FetchRequest { id: 42 }]);
    assert_eq!(page.view(), Rendered::Loading);

    let outcome = page.update(Msg::from_response(Ok(widget())));
    assert_eq!(outcome, Update { should_render: true, request: None });
    assert!(page.is_loaded());
    assert_eq!(page.product(), Some(&widget()));
    assert_eq!(page.error(), None);

    match page.view() {
        Rendered::Detail(content) => {
            assert!(content.price.contains("$9.99"));
            assert_eq!(content.price, "$9.99");
            assert_eq!(content.image_path, "/products/widget.png");
            assert_eq!(content.name, "Widget");
            assert_eq!(content.description, "A widget");
            assert_eq!(content.add_to_cart, AtcButton { product: widget(), on_add_to_cart });
        }
        other => panic!("expected the product, got {:?}", other),
    }
    assert_eq!(
        page.view().text(),
        vec![String::from("Widget"), String::from("A widget"), String::from("$9.99")]
    );
}

#[test]
fn failure_end_to_end() {
    let (mut page, issued) = mount(7);
    assert_eq!(issued, vec![FetchRequest { id: 7 }]);

    let outcome = page.update(Msg::from_response(Err(FetchError::Network)));
    assert_eq!(outcome, Update { should_render: true, request: None });
    assert!(page.is_loaded());
    assert_eq!(page.error(), Some(FetchError::Network));
    assert_eq!(page.product(), None);

    let shown = page.view();
    assert_eq!(shown, Rendered::Error);
    let text = shown.text();
    assert_eq!(text, vec![String::from("Error loading product")]);
    assert!(text.iter().all(|run| !run.contains('$')));
    assert!(text.iter().all(|run| !run.contains("Widget")));
}

#[test]
fn decode_failure_shows_the_same_placeholder() {
    let (mut page, _issued) = mount(7);
    page.update(Msg::from_response(Err(FetchError::Decode)));
    assert!(page.is_loaded());
    assert_eq!(page.error(), Some(FetchError::Decode));
    assert_eq!(page.view(), Rendered::Error);
    assert_eq!(page.view().text(), vec![String::from(ERROR_TEXT)]);
}

#[test]
fn rendering_depends_on_the_product_and_the_callback_alone() {
    let on_add_to_cart = deaf();
    let (mut first, _) = mount_with(Props { id: 43, on_add_to_cart: on_add_to_cart.clone() });
    let (mut second, _) = mount_with(Props { id: -5, on_add_to_cart: on_add_to_cart.clone() });
    first.update(Msg::GetProductSuccess(gadget()));
    second.update(Msg::GetProductSuccess(gadget()));
    assert_eq!(first.view(), second.view());
    assert_eq!(first.view(), first.view());
    assert_eq!(
        first.view(),
        Rendered::Detail(DetailContent {
            image_path: String::from("/products/gadgets/g.jpg"),
            name: String::from("Gadget"),
            description: String::from("A gadget"),
            price: String::from("$120"),
            add_to_cart: AtcButton { product: gadget(), on_add_to_cart },
        })
    );

    let (mut third, _) = mount(43);
    third.update(Msg::GetProductSuccess(gadget()));
    assert_ne!(first.view(), third.view());
}

#[test]
fn empty_fields_are_presented_as_they_are() {
    let bare = Product {
        id: 0,
        name: String::new(),
        description: String::new(),
        price: String::new(),
        image: String::new(),
    };
    let on_add_to_cart = deaf();
    let content = DetailContent::of(&bare, &on_add_to_cart);
    assert_eq!(content.image_path, "/products/");
    assert_eq!(content.price, "$");
    assert_eq!(content.name, "");
    assert_eq!(content.description, "");
    assert_eq!(content.add_to_cart.product, bare);
    assert_eq!(content.add_to_cart.on_add_to_cart, on_add_to_cart);
}

#[test]
fn loaded_flag_stays_set() {
    let (mut page, _issued) = mount(42);
    page.update(Msg::GetProductSuccess(widget()));
    assert!(page.is_loaded());
    page.update(Msg::GetProduct);
    assert!(page.is_loaded());
    page.change(props(1));
    assert!(page.is_loaded());

    let (mut failed, _issued) = mount(7);
    failed.update(Msg::GetProductError(FetchError::Network));
    assert!(failed.is_loaded());
    failed.update(Msg::GetProduct);
    assert!(failed.is_loaded());
    assert_eq!(failed.view(), Rendered::Error);
}

#[test]
fn one_mount_one_request_one_completion() {
    let (mut page, first) = ProductDetail::create(props(42));
    let mut issued: Vec<FetchRequest> = Vec::new();
    let mut delivered = 0;

    let mut inbox = vec![first];
    while let Some(message) = inbox.pop() {
        let outcome = page.update(message);
        if let Some(request) = outcome.request {
            issued.push(request);
            // The backend answers every request once.
            assert_eq!(request.id, 42);
            inbox.push(Msg::from_response(Ok(widget())));
            delivered += 1;
        }
    }

    assert_eq!(issued, vec![FetchRequest { id: 42 }]);
    assert_eq!(delivered, 1);
    assert!(page.is_loaded());
    assert_eq!(page.product(), Some(&widget()));
    assert_eq!(page.error(), None);
}

#[test]
fn completions_issue_no_request() {
    let (mut page, _issued) = mount(9);
    let on_error = page.update(Msg::GetProductError(FetchError::Decode));
    assert_eq!(on_error.request, None);
    assert!(on_error.should_render);
    let (mut other, _issued) = mount(9);
    let on_success = other.update(Msg::GetProductSuccess(widget()));
    assert_eq!(on_success.request, None);
    assert!(on_success.should_render);
    assert_eq!(other.task(), Some(FetchRequest { id: 9 }));
}

#[test]
fn from_response_keeps_what_it_is_given() {
    assert_eq!(Msg::from_response(Ok(widget())), Msg::GetProductSuccess(widget()));
    assert_eq!(
        Msg::from_response(Err(FetchError::Network)),
        Msg::GetProductError(FetchError::Network)
    );
    assert_eq!(
        Msg::from_response(Err(FetchError::Decode)),
        Msg::GetProductError(FetchError::Decode)
    );
}

#[test]
fn change_is_ignored() {
    let on_add_to_cart = deaf();
    let (mut page, _issued) = mount_with(Props { id: 42, on_add_to_cart: on_add_to_cart.clone() });
    assert!(!page.change(props(43)));
    assert_eq!(page.id(), 42);
    assert_eq!(page.on_add_to_cart(), &on_add_to_cart);
    assert_eq!(page.task(), Some(FetchRequest { id: 42 }));
    assert_eq!(page.view(), Rendered::Loading);

    page.update(Msg::GetProductSuccess(widget()));
    let before = page.view();
    assert!(!page.change(props(43)));
    assert_eq!(page.view(), before);
    assert_eq!(page.id(), 42);
    assert_eq!(page.product(), Some(&widget()));
    match page.view() {
        Rendered::Detail(content) => {
            assert_eq!(content.add_to_cart.on_add_to_cart, on_add_to_cart)
        }
        other => panic!("expected the product, got {:?}", other),
    }
}

#[test]
fn a_product_outlives_a_late_failure() {
    let (mut page, _issued) = mount(42);
    page.update(Msg::GetProductSuccess(widget()));
    page.update(Msg::GetProductError(FetchError::Network));
    assert!(page.is_loaded());
    assert_eq!(page.product(), Some(&widget()));
    assert_eq!(page.error(), Some(FetchError::Network));
    assert!(matches!(page.view(), Rendered::Detail(_)));
}

#[test]
fn a_late_product_replaces_the_error_notice() {
    let (mut page, _issued) = mount(42);
    page.update(Msg::GetProductError(FetchError::Decode));
    assert_eq!(page.view(), Rendered::Error);
    page.update(Msg::GetProductSuccess(widget()));
    assert!(page.is_loaded());
    assert!(matches!(page.view(), Rendered::Detail(_)));
}

#[test]
fn a_completion_before_the_request_is_stored() {
    let (mut page, _first) = ProductDetail::create(props(3));
    page.update(Msg::GetProductError(FetchError::Network));
    assert!(page.is_loaded());
    assert_eq!(page.task(), None);
    assert_eq!(page.view(), Rendered::Error);
}

#[test]
fn placeholders_and_prefixes() {
    assert_eq!(LOADING_TEXT, "Loading...");
    assert_eq!(ERROR_TEXT, "Error loading product");
    assert_eq!(PRODUCTS_PREFIX, "/products/");
    assert_eq!(CURRENCY, "$");
    assert_eq!(Rendered::Loading.text(), vec![String::from("Loading...")]);
    assert_eq!(Rendered::Error.text(), vec![String::from("Error loading product")]);
}

#[test]
fn button_asks_for_its_callback_and_a_copy_of_its_product() {
    let on_add_to_cart = deaf();
    let button = AtcButton::new(widget(), on_add_to_cart.clone());
    assert_eq!(button.product, widget());
    assert_eq!(button.on_add_to_cart, on_add_to_cart);
    let (first_callback, first) = button.activate();
    assert_eq!(first_callback, &on_add_to_cart);
    assert_eq!(first, widget());
    let (second_callback, second) = button.activate();
    assert_eq!(second_callback, &on_add_to_cart);
    assert_eq!(second, widget());
    assert_eq!(button.product, widget());
    assert_ne!(button.on_add_to_cart, deaf());
}

#[test]
fn rendered_control_reaches_the_callback_the_page_was_created_with() {
    let (on_add_to_cart, heard) = recorder();
    let (mut page, _issued) = mount_with(Props { id: 42, on_add_to_cart: on_add_to_cart.clone() });
    assert_eq!(page.on_add_to_cart(), &on_add_to_cart);
    page.update(Msg::GetProductSuccess(widget()));

    let (other, heard_by_other) = recorder();
    assert!(!page.change(Props { id: 42, on_add_to_cart: other }));

    match page.view() {
        Rendered::Detail(content) => {
            assert_eq!(content.add_to_cart.on_add_to_cart, on_add_to_cart);
            // The host performs what an activation asks for.
            let (callback, payload) = content.add_to_cart.activate();
            callback.emit(payload);
            let (callback, payload) = content.add_to_cart.activate();
            callback.emit(payload);
        }
        other => panic!("expected the product, got {:?}", other),
    }
    assert_eq!(*heard.borrow(), vec![widget(), widget()]);
    assert!(heard_by_other.borrow().is_empty());
}

#[test]
fn product_clone_is_equal() {
    let source = gadget();
    let copy = source.clone();
    assert_eq!(copy, source);
    assert_eq!(copy.image, "gadgets/g.jpg");
}
