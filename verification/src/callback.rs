//! The host framework's callback handle.
//!
//! The library stores callbacks and hands them on to the controls it
//! describes. It never calls one: calling runs code of the host, which is
//! the host's business.

use vstd::prelude::*;

verus! {

/// `yew::callback::Callback<IN>`, a shared handle to a function of the host
/// that takes an `IN`. It is taken on trust as a value whose inside is
/// invisible here: the library can hold it, move it and copy it, and knows
/// nothing else of it.
#[verifier::external_type_specification]
#[verifier::external_body]
#[verifier::reject_recursive_types(IN)]
pub struct ExCallback<IN>(yew::callback::Callback<IN>);

/// `<yew::callback::Callback<IN> as Clone>::clone`. Assumed without proof:
/// the copy is the callback it was made from. In yew a callback is a
/// reference-counted pointer to its function; cloning copies the pointer, so
/// both handles reach the same function, and yew's own comparison, which
/// compares the pointers, holds them equal.
pub assume_specification<IN>[ <yew::callback::Callback<IN> as Clone>::clone ](
    callback: &yew::callback::Callback<IN>,
) -> (copy: yew::callback::Callback<IN>)
    ensures
        copy == *callback,
;

} // verus!
