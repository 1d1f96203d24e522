//! Facts about the model that the store's operations rest on.

use vstd::prelude::*;
use crate::model::{
    after_create, find_post, holds_id, max_id, next_id, seed_state, valid_state,
};
use crate::post::{CreatePostView, PostView};

verus! {

/// `max_id` is an upper bound of the ids present, and one of them where
/// there is any.
pub proof fn lemma_max_id_is_greatest(s: Seq<PostView>)
    ensures
        forall|i: int| 0 <= i < s.len() ==> (#[trigger] s[i]).id <= max_id(s),
        s.len() == 0 ==> max_id(s) == 0,
        s.len() > 0 ==> holds_id(s, max_id(s)),
    decreases s.len(),
{
    if s.len() > 0 {
        let front = s.drop_last();
        lemma_max_id_is_greatest(front);
        assert forall|i: int| 0 <= i < s.len() implies (#[trigger] s[i]).id <= max_id(s) by {
            if i < front.len() {
                assert(front[i] == s[i]);
            }
        }
        if s.last().id > max_id(front) || front.len() == 0 {
            assert(s[s.len() - 1].id == max_id(s));
        } else {
            let k = choose|k: int| 0 <= k < front.len() && (#[trigger] front[k]).id == max_id(front);
            assert(s[k].id == max_id(s));
        }
    }
}

/// `find_post` answers with the first post that carries the id, and with
/// nothing exactly where no post carries it.
pub proof fn lemma_find_post_is_first_match(s: Seq<PostView>, id: nat)
    ensures
        find_post(s, id) is None <==> !holds_id(s, id),
        find_post(s, id) matches Some(p) ==> exists|i: int|
            0 <= i < s.len() && #[trigger] s[i] == p && p.id == id && forall|j: int|
                0 <= j < i ==> (#[trigger] s[j]).id != id,
    decreases s.len(),
{
    if s.len() > 0 {
        let front = s.drop_last();
        lemma_find_post_is_first_match(front, id);
        assert(forall|i: int| 0 <= i < front.len() ==> front[i] == s[i]);
        match find_post(front, id) {
            Some(p) => {
                let i = choose|i: int|
                    0 <= i < front.len() && #[trigger] front[i] == p && p.id == id && forall|j: int|
                        0 <= j < i ==> (#[trigger] front[j]).id != id;
                assert(s[i] == p);
                assert(forall|j: int| 0 <= j < i ==> (#[trigger] s[j]).id == front[j].id);
            },
            None => {
                if s.last().id == id {
                    let i = s.len() - 1;
                    assert(s[i] == s.last());
                    assert forall|j: int| 0 <= j < i implies (#[trigger] s[j]).id != id by {
                        assert(front[j] == s[j]);
                    }
                } else {
                    if holds_id(s, id) {
                        let i = choose|i: int| 0 <= i < s.len() && (#[trigger] s[i]).id == id;
                        assert(front[i].id == id);
                    }
                }
            },
        }
    }
}

/// A post found among the first `k` posts of `s` is the post found in `s`.
pub proof fn lemma_find_post_in_prefix(s: Seq<PostView>, k: int, id: nat)
    requires
        0 <= k <= s.len(),
        find_post(s.take(k), id) is Some,
    ensures
        find_post(s, id) == find_post(s.take(k), id),
    decreases s.len() - k,
{
    if k < s.len() {
        assert(s.take(k + 1).drop_last() == s.take(k));
        lemma_find_post_in_prefix(s, k + 1, id);
    } else {
        assert(s.take(k) == s);
    }
}

/// The state of a freshly started store is valid.
pub proof fn lemma_seed_state_valid()
    ensures
        valid_state(seed_state()),
        max_id(seed_state()) == 1,
{
    let s = seed_state();
    assert(s.drop_last().len() == 0);
    assert(max_id(s.drop_last()) == 0);
}

/// A create request gives out an id that no post carries yet, and leaves a
/// valid state valid.
pub proof fn lemma_create_keeps_valid(s: Seq<PostView>, input: CreatePostView)
    ensures
        !holds_id(s, next_id(s)),
        valid_state(s) ==> valid_state(after_create(s, input)),
{
    lemma_max_id_is_greatest(s);
}

} // verus!
