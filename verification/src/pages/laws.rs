//! What holds of every detail page, proved over the lifecycle model that the
//! page's own contracts are stated in.

use vstd::prelude::*;

use crate::api::{FetchError, FetchRequest};
use crate::components::AtcButtonModel;
use crate::pages::lifecycle::{
    completions, mount_trace, requests, run, scheduled_on_mount, transition, DetailModel, MsgModel,
    Phase,
};
use crate::pages::product_detail::{mounted, Props};
use crate::pages::rendering::{
    present, render, RenderedModel, CURRENCY, ERROR_TEXT, LOADING_TEXT, PRODUCTS_PREFIX,
};
use crate::types::ProductModel;

verus! {

/// Handling a message never breaks the tie between the loaded flag and the
/// stored outcome.
pub proof fn transition_keeps_wf(m: DetailModel, msg: MsgModel)
    requires
        m.wf(),
    ensures
        transition(m, msg).next.wf(),
{
}

/// Whatever a page is sent, its loaded flag is set exactly when it holds an
/// outcome.
pub proof fn flag_tracks_outcome(props: Props, msgs: Seq<MsgModel>)
    ensures
        run(mounted(props), msgs).wf(),
    decreases msgs.len(),
{
    if msgs.len() > 0 {
        flag_tracks_outcome(props, msgs.drop_last());
        transition_keeps_wf(run(mounted(props), msgs.drop_last()), msgs.last());
    }
}

/// Once loaded, always loaded: no message clears the flag.
pub proof fn loaded_is_permanent(m: DetailModel, msgs: Seq<MsgModel>)
    requires
        m.state.loaded,
    ensures
        run(m, msgs).state.loaded,
    decreases msgs.len(),
{
    if msgs.len() > 0 {
        loaded_is_permanent(m, msgs.drop_last());
    }
}

/// The loaded flag is set by the first completion and by nothing else: a
/// page is loaded exactly when it has received a completion.
pub proof fn loaded_exactly_when_resolved(props: Props, msgs: Seq<MsgModel>)
    ensures
        run(mounted(props), msgs).state.loaded <==> completions(msgs) > 0,
    decreases msgs.len(),
{
    if msgs.len() > 0 {
        loaded_exactly_when_resolved(props, msgs.drop_last());
    }
}

/// A page that receives at most one completion never holds a product and an
/// error together; one that has received none holds neither.
pub proof fn outcomes_exclude_each_other(props: Props, msgs: Seq<MsgModel>)
    requires
        completions(msgs) <= 1,
    ensures
        run(mounted(props), msgs).exclusive(),
        completions(msgs) == 0 ==> {
            &&& run(mounted(props), msgs).state.product is None
            &&& run(mounted(props), msgs).state.error is None
        },
    decreases msgs.len(),
{
    if msgs.len() > 0 {
        outcomes_exclude_each_other(props, msgs.drop_last());
    }
}

/// No message changes what a page was created with: neither the identifier
/// nor the callback.
pub proof fn props_are_fixed(m: DetailModel, msgs: Seq<MsgModel>)
    ensures
        run(m, msgs).id == m.id,
        run(m, msgs).on_add_to_cart == m.on_add_to_cart,
    decreases msgs.len(),
{
    if msgs.len() > 0 {
        props_are_fixed(m, msgs.drop_last());
    }
}

/// Mounting a page issues exactly one request, and it asks for the page's
/// identifier. This holds for every identifier, while the request is under
/// way and after it has ended: a completion issues nothing.
pub proof fn mount_issues_one_fetch(props: Props, completion: Option<MsgModel>)
    requires
        completion matches Some(msg) ==> msg.is_completion(),
    ensures
        requests(mounted(props), mount_trace(completion)) == seq![FetchRequest { id: props.id }],
{
    let start = mounted(props);
    let first = seq![scheduled_on_mount()];
    assert(first.drop_last() =~= Seq::<MsgModel>::empty());
    assert(run(start, first.drop_last()) == start);
    assert(requests(start, first.drop_last()) =~= Seq::<FetchRequest>::empty());
    assert(requests(start, first) =~= seq![FetchRequest { id: props.id }]);
    match completion {
        Some(msg) => {
            let both = seq![scheduled_on_mount(), msg];
            assert(both.drop_last() =~= first);
            assert(both.last() == msg);
        },
        None => {},
    }
}

/// Requests come from `GetProduct` alone, one each, always for the page's
/// identifier: a trace issues as many requests as it holds messages that are
/// no completion.
pub proof fn requests_come_from_get_product(m: DetailModel, msgs: Seq<MsgModel>)
    ensures
        requests(m, msgs).len() + completions(msgs) == msgs.len(),
        forall|i: int|
            0 <= i < requests(m, msgs).len() ==> #[trigger] requests(m, msgs)[i] == (FetchRequest {
                id: m.id,
            }),
    decreases msgs.len(),
{
    if msgs.len() > 0 {
        requests_come_from_get_product(m, msgs.drop_last());
        props_are_fixed(m, msgs.drop_last());
    }
}

/// Before the request has ended, a page shows the loading placeholder and is
/// not loaded: this holds right after creation and after any messages that
/// are no completion.
pub proof fn loading_until_resolved(props: Props, msgs: Seq<MsgModel>)
    requires
        completions(msgs) == 0,
    ensures
        render(run(mounted(props), msgs)) == RenderedModel::Loading,
        render(run(mounted(props), msgs)).text() == seq![LOADING_TEXT@],
        !run(mounted(props), msgs).state.loaded,
    decreases msgs.len(),
{
    if msgs.len() > 0 {
        loading_until_resolved(props, msgs.drop_last());
    }
}

/// When a product is delivered, the page shows that product: its name and
/// description unchanged, its price behind the currency symbol, its image
/// below the products path, and a control bound to it and to the callback
/// the page was created with. What is shown depends on the delivered product
/// and that callback alone. The page is loaded from then on, whatever it is
/// sent later.
pub proof fn success_is_shown_and_lasting(
    m: DetailModel,
    product: ProductModel,
    later: Seq<MsgModel>,
)
    ensures
        ({
            let after = transition(m, MsgModel::GetProductSuccess(product)).next;
            let shown = present(product, m.on_add_to_cart);
            &&& render(after) == RenderedModel::Detail(shown)
            &&& shown.name == product.name
            &&& shown.description == product.description
            &&& shown.price == CURRENCY@ + product.price
            &&& shown.image_path == PRODUCTS_PREFIX@ + product.image
            &&& shown.add_to_cart == AtcButtonModel { product, on_add_to_cart: m.on_add_to_cart }
            &&& render(after).text() == seq![product.name, product.description, shown.price]
            &&& after.state.loaded
            &&& run(after, later).state.loaded
        }),
{
    loaded_is_permanent(transition(m, MsgModel::GetProductSuccess(product)).next, later);
}

/// When a request fails on a page that holds no product, the page shows the
/// error placeholder and nothing else, whichever failure it was. The page is
/// loaded from then on, whatever it is sent later.
pub proof fn failure_is_shown_and_lasting(m: DetailModel, error: FetchError, later: Seq<MsgModel>)
    requires
        m.state.product is None,
    ensures
        ({
            let after = transition(m, MsgModel::GetProductError(error)).next;
            &&& render(after) == RenderedModel::Error
            &&& render(after).text() == seq![ERROR_TEXT@]
            &&& after.state.loaded
            &&& run(after, later).state.loaded
        }),
{
    loaded_is_permanent(transition(m, MsgModel::GetProductError(error)).next, later);
}

/// A page is created in `Init` and moves to `Loading` with the message that
/// creation schedules.
pub proof fn mounting_starts_loading(props: Props)
    ensures
        mounted(props).phase() is Init,
        transition(mounted(props), scheduled_on_mount()).next.phase() is Loading,
{
}

/// A page that has not heard of its request's end goes to `Success` with a
/// product and to `Failure` with an error.
pub proof fn completion_ends_loading(m: DetailModel, product: ProductModel, error: FetchError)
    requires
        m.phase() is Init || m.phase() is Loading,
    ensures
        transition(m, MsgModel::GetProductSuccess(product)).next.phase() is Success,
        transition(m, MsgModel::GetProductError(error)).next.phase() is Failure,
{
}

/// What a page shows is decided by its phase: the placeholder in `Init` and
/// `Loading`, the product in `Success`, the error notice in `Failure`.
pub proof fn render_follows_phase(m: DetailModel)
    ensures
        match m.phase() {
            Phase::Init | Phase::Loading => render(m) == RenderedModel::Loading,
            Phase::Success => render(m) == RenderedModel::Detail(
                present(m.state.product->0, m.on_add_to_cart),
            ),
            Phase::Failure => render(m) == RenderedModel::Error,
        },
{
}

} // verus!
