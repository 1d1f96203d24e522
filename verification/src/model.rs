//! The mathematical model of the store: a sequence of post views in
//! insertion order, and what each operation means on it.

use vstd::prelude::*;
use crate::post::{CreatePostView, PostView};

verus! {

/// The one post every freshly started store holds.
pub open spec fn seed_post() -> PostView {
    PostView {
        id: 1,
        title: "Welcome to Rust"@,
        content: "Learning Rust is awesome!"@,
        author: "Admin"@,
    }
}

/// The state of a freshly started store.
pub open spec fn seed_state() -> Seq<PostView> {
    seq![seed_post()]
}

/// Some post of `s` carries `id`.
pub open spec fn holds_id(s: Seq<PostView>, id: nat) -> bool {
    exists|i: int| 0 <= i < s.len() && (#[trigger] s[i]).id == id
}

/// No two posts of `s` share an id.
pub open spec fn ids_unique(s: Seq<PostView>) -> bool {
    forall|i: int, j: int| 0 <= i < j < s.len() ==> (#[trigger] s[i]).id != (#[trigger] s[j]).id
}

/// Every id in `s` is at least one.
pub open spec fn ids_positive(s: Seq<PostView>) -> bool {
    forall|i: int| 0 <= i < s.len() ==> (#[trigger] s[i]).id >= 1
}

/// What holds of every store at all times.
pub open spec fn valid_state(s: Seq<PostView>) -> bool {
    ids_unique(s) && ids_positive(s)
}

/// The largest id in `s`, or zero where `s` is empty.
pub open spec fn max_id(s: Seq<PostView>) -> nat
    decreases s.len(),
{
    if s.len() == 0 {
        0
    } else {
        let before = max_id(s.drop_last());
        if s.last().id > before {
            s.last().id
        } else {
            before
        }
    }
}

/// The id the next created post receives: one more than the largest id
/// present, hence one for an empty store.
pub open spec fn next_id(s: Seq<PostView>) -> nat {
    max_id(s) + 1
}

/// The first post of `s` that carries `id`, if there is one.
pub open spec fn find_post(s: Seq<PostView>, id: nat) -> Option<PostView>
    decreases s.len(),
{
    if s.len() == 0 {
        None
    } else {
        match find_post(s.drop_last(), id) {
            Some(p) => Some(p),
            None => if s.last().id == id {
                Some(s.last())
            } else {
                None
            },
        }
    }
}

/// The record that a create request yields in state `s`.
pub open spec fn created_post(s: Seq<PostView>, input: CreatePostView) -> PostView {
    PostView {
        id: next_id(s),
        title: input.title,
        content: input.content,
        author: input.author,
    }
}

/// The state after one create request in state `s`.
pub open spec fn after_create(s: Seq<PostView>, input: CreatePostView) -> Seq<PostView> {
    s.push(created_post(s, input))
}

/// The state after the requests `inputs`, served in order from state `s`.
pub open spec fn after_creates(s: Seq<PostView>, inputs: Seq<CreatePostView>) -> Seq<PostView>
    decreases inputs.len(),
{
    if inputs.len() == 0 {
        s
    } else {
        after_create(after_creates(s, inputs.drop_last()), inputs.last())
    }
}

} // verus!
