//! What holds of the store over whole histories of requests.

use vstd::prelude::*;
use crate::model::{
    after_create, after_creates, created_post, find_post, holds_id, max_id, next_id, seed_post,
    seed_state, valid_state,
};
use crate::post::{CreatePostView, PostView};
use crate::proofs::{
    lemma_create_keeps_valid, lemma_find_post_is_first_match, lemma_max_id_is_greatest,
    lemma_seed_state_valid,
};

verus! {

/// Serving `inputs` from `s` appends one post per request, and the state
/// after the first `k` requests is the first `s.len() + k` posts of the
/// state after all of them: nothing stored is ever changed or removed.
pub proof fn lemma_creates_only_append(s: Seq<PostView>, inputs: Seq<CreatePostView>)
    ensures
        after_creates(s, inputs).len() == s.len() + inputs.len(),
        forall|k: int|
            0 <= k <= inputs.len() ==> #[trigger] after_creates(s, inputs.take(k))
                == after_creates(s, inputs).take(s.len() + k),
        forall|k: int|
            0 <= k < inputs.len() ==> after_creates(s, inputs)[s.len() + k] == created_post(
                #[trigger] after_creates(s, inputs.take(k)),
                inputs[k],
            ),
        valid_state(s) ==> valid_state(after_creates(s, inputs)),
    decreases inputs.len(),
{
    let all = after_creates(s, inputs);
    if inputs.len() == 0 {
        assert forall|k: int| 0 <= k <= inputs.len() implies #[trigger] after_creates(
            s,
            inputs.take(k),
        ) == all.take(s.len() + k) by {
            assert(inputs.take(k) == inputs);
            assert(all.take(s.len() + k) == all);
        }
    } else {
        let front = inputs.drop_last();
        let mid = after_creates(s, front);
        lemma_creates_only_append(s, front);
        lemma_create_keeps_valid(mid, inputs.last());
        assert(all == mid.push(created_post(mid, inputs.last())));
        assert forall|k: int| 0 <= k <= inputs.len() implies #[trigger] after_creates(
            s,
            inputs.take(k),
        ) == all.take(s.len() + k) by {
            if k == inputs.len() {
                assert(inputs.take(k) == inputs);
                assert(all.take(s.len() + k) == all);
            } else {
                assert(inputs.take(k) == front.take(k));
                assert(all.take(s.len() + k) == mid.take(s.len() + k));
            }
        }
        assert forall|k: int| 0 <= k < inputs.len() implies all[s.len() + k] == created_post(
            #[trigger] after_creates(s, inputs.take(k)),
            inputs[k],
        ) by {
            if k == inputs.len() - 1 {
                assert(inputs.take(k) == front);
            } else {
                assert(inputs.take(k) == front.take(k));
                assert(all[s.len() + k] == mid[s.len() + k]);
                assert(inputs[k] == front[k]);
            }
        }
    }
}

/// After `n` create requests on a freshly started store it holds `n + 1`
/// posts: the seed post, then the created ones in request order with the
/// ids `2, 3, ..., n + 1` and the texts of their requests. The largest id is
/// then `n + 1` and the next id to be given out `n + 2`.
pub proof fn lemma_creates_from_seed(inputs: Seq<CreatePostView>)
    ensures
        after_creates(seed_state(), inputs).len() == inputs.len() + 1,
        after_creates(seed_state(), inputs)[0] == seed_post(),
        forall|k: int|
            0 <= k < inputs.len() ==> {
                let assigned = created_post(
                    #[trigger] after_creates(seed_state(), inputs.take(k)),
                    inputs[k],
                );
                &&& assigned.id == k + 2
                &&& after_creates(seed_state(), inputs)[k + 1] == assigned
            },
        forall|k: int|
            1 <= k <= inputs.len() ==> (#[trigger] after_creates(seed_state(), inputs)[k])
                == (PostView {
                id: (k + 1) as nat,
                title: inputs[k - 1].title,
                content: inputs[k - 1].content,
                author: inputs[k - 1].author,
            }),
        max_id(after_creates(seed_state(), inputs)) == inputs.len() + 1,
        next_id(after_creates(seed_state(), inputs)) == inputs.len() + 2,
        valid_state(after_creates(seed_state(), inputs)),
    decreases inputs.len(),
{
    let seed = seed_state();
    let all = after_creates(seed, inputs);
    lemma_seed_state_valid();
    lemma_creates_only_append(seed, inputs);
    assert(all.take(1) == after_creates(seed, inputs.take(0)));
    assert(inputs.take(0).len() == 0);
    assert(all[0] == all.take(1)[0]);
    if inputs.len() > 0 {
        let front = inputs.drop_last();
        let mid = after_creates(seed, front);
        lemma_creates_from_seed(front);
        lemma_creates_only_append(seed, front);
        assert(all == mid.push(created_post(mid, inputs.last())));
        assert(all.drop_last() == mid);
        assert forall|k: int| 0 <= k < inputs.len() implies {
            let assigned = created_post(
                #[trigger] after_creates(seed_state(), inputs.take(k)),
                inputs[k],
            );
            &&& assigned.id == k + 2
            &&& after_creates(seed_state(), inputs)[k + 1] == assigned
        } by {
            if k == inputs.len() - 1 {
                assert(inputs.take(k) == front);
            } else {
                assert(inputs.take(k) == front.take(k));
                assert(inputs[k] == front[k]);
                assert(all[k + 1] == mid[k + 1]);
            }
        }
        assert forall|k: int| 1 <= k <= inputs.len() implies (#[trigger] all[k]) == (PostView {
            id: (k + 1) as nat,
            title: inputs[k - 1].title,
            content: inputs[k - 1].content,
            author: inputs[k - 1].author,
        }) by {
            if k == inputs.len() {
                assert(all[k] == created_post(mid, inputs.last()));
            } else {
                assert(all[k] == mid[k]);
                assert(inputs[k - 1] == front[k - 1]);
            }
        }
    }
}

/// Looking up the id that a create request was given finds the very record
/// that the request returned.
pub proof fn lemma_create_then_get(s: Seq<PostView>, input: CreatePostView)
    ensures
        find_post(after_create(s, input), created_post(s, input).id) == Some(
            created_post(s, input),
        ),
{
    lemma_create_keeps_valid(s, input);
    lemma_find_post_is_first_match(s, next_id(s));
    assert(after_create(s, input).drop_last() == s);
}

/// The record that a create request returned is found under its id after
/// any number of further create requests.
pub proof fn lemma_created_post_stays_found(
    s: Seq<PostView>,
    input: CreatePostView,
    later: Seq<CreatePostView>,
)
    ensures
        find_post(after_creates(after_create(s, input), later), created_post(s, input).id)
            == Some(created_post(s, input)),
    decreases later.len(),
{
    if later.len() == 0 {
        lemma_create_then_get(s, input);
    } else {
        let mid = after_creates(after_create(s, input), later.drop_last());
        lemma_created_post_stays_found(s, input, later.drop_last());
        assert(after_create(mid, later.last()).drop_last() == mid);
    }
}

/// An id that no post carries is not found; zero and every id above the
/// largest are such ids.
pub proof fn lemma_unassigned_id_not_found(s: Seq<PostView>, id: nat)
    requires
        valid_state(s),
    ensures
        id == 0 || id > max_id(s) ==> !holds_id(s, id),
        !holds_id(s, id) ==> find_post(s, id) is None,
{
    lemma_max_id_is_greatest(s);
    lemma_find_post_is_first_match(s, id);
}

/// After `n` create requests on a freshly started store, exactly the ids
/// from `1` to `n + 1` are found.
pub proof fn lemma_found_ids_from_seed(inputs: Seq<CreatePostView>, id: nat)
    ensures
        find_post(after_creates(seed_state(), inputs), id) is Some <==> 1 <= id <= inputs.len()
            + 1,
{
    let all = after_creates(seed_state(), inputs);
    lemma_creates_from_seed(inputs);
    lemma_find_post_is_first_match(all, id);
    lemma_max_id_is_greatest(all);
    if 1 <= id <= inputs.len() + 1 {
        assert(all[id - 1].id == id);
    }
}

/// Two create requests served one after the other, in whichever order,
/// are given different ids; both records are stored, none is lost, and a
/// valid state stays valid.
pub proof fn lemma_two_creates_get_distinct_ids(
    s: Seq<PostView>,
    first: CreatePostView,
    second: CreatePostView,
)
    ensures
        ({
            let mid = after_create(s, first);
            let end = after_create(mid, second);
            let a = created_post(s, first);
            let b = created_post(mid, second);
            &&& a.id != b.id
            &&& end.len() == s.len() + 2
            &&& end.take(s.len() as int) == s
            &&& find_post(end, a.id) == Some(a)
            &&& find_post(end, b.id) == Some(b)
            &&& valid_state(s) ==> valid_state(end)
        }),
{
    let mid = after_create(s, first);
    let end = after_create(mid, second);
    lemma_create_keeps_valid(s, first);
    lemma_create_keeps_valid(mid, second);
    lemma_max_id_is_greatest(mid);
    assert(mid[s.len() as int].id == next_id(s));
    lemma_create_then_get(s, first);
    lemma_create_then_get(mid, second);
    assert(end.drop_last() == mid);
    assert(end.take(s.len() as int) == s);
}

} // verus!
