//! The post store: the authoritative list of posts and its operations.

use vstd::prelude::*;
use crate::model::{
    after_create, created_post, find_post, max_id, seed_state, valid_state,
};
use crate::post::{post_views, CreatePost, Post, PostView};
use crate::proofs::{
    lemma_create_keeps_valid, lemma_find_post_in_prefix, lemma_seed_state_valid,
};

verus! {

/// Why a store operation failed.
#[derive(Clone, Copy, Debug, PartialEq, Eq, Structural)]
pub enum StoreError {
    /// No post carries the requested id.
    NotFound,
}

/// The posts of one blog, in the order in which they were created.
///
/// Reading takes `&self` and writing `&mut self`, so any number of readers
/// or one writer hold the store at a time.
pub struct PostStore {
    posts: Vec<Post>,
}

impl View for PostStore {
    type V = Seq<PostView>;

    closed spec fn view(&self) -> Seq<PostView> {
        post_views(self.posts@)
    }
}

impl PostStore {
    /// Held by every store from construction on: ids are unique and at
    /// least one.
    #[verifier::type_invariant]
    spec fn inv(&self) -> bool {
        valid_state(self@)
    }

    /// A freshly started store: it holds the seed post and nothing else.
    pub fn new() -> (store: Self)
        ensures
            store@ == seed_state(),
            valid_state(store@),
            max_id(store@) == 1,
    {
        let seed = Post {
            id: 1,
            title: "Welcome to Rust".to_owned(),
            content: "Learning Rust is awesome!".to_owned(),
            author: "Admin".to_owned(),
        };
        let mut posts: Vec<Post> = Vec::new();
        posts.push(seed);
        proof {
            lemma_seed_state_valid();
            assert(post_views(posts@) == seed_state());
        }
        PostStore { posts }
    }

    /// A store without any post, for a blog that starts with none.
    pub fn empty() -> (store: Self)
        ensures
            store@ == Seq::<PostView>::empty(),
            valid_state(store@),
    {
        let posts: Vec<Post> = Vec::new();
        proof {
            assert(post_views(posts@) == Seq::<PostView>::empty());
        }
        PostStore { posts }
    }

    /// The number of posts in the store.
    pub fn len(&self) -> (n: usize)
        ensures
            n == self@.len(),
    {
        self.posts.len()
    }

    /// A copy of every post, in the order in which they were created. The
    /// copies share nothing with the store.
    pub fn list_posts(&self) -> (posts: Vec<Post>)
        ensures
            posts.deep_view() == self@,
            valid_state(self@),
    {
        proof {
            use_type_invariant(self);
        }
        let mut posts: Vec<Post> = Vec::new();
        let mut i: usize = 0;
        while i < self.posts.len()
            invariant
                i <= self.posts.len(),
                posts.len() == i,
                forall|j: int| 0 <= j < i ==> #[trigger] posts[j] == self.posts[j],
            decreases self.posts.len() - i,
        {
            posts.push(self.posts[i].clone());
            i = i + 1;
        }
        proof {
            assert(posts.deep_view() =~= self@);
        }
        posts
    }

    /// A copy of the post that carries `id`, or `NotFound` where no post
    /// does.
    pub fn get_post(&self, id: u32) -> (found: Result<Post, StoreError>)
        ensures
            match found {
                Ok(post) => find_post(self@, id as nat) == Some(post@),
                Err(e) => e == StoreError::NotFound && find_post(self@, id as nat) is None,
            },
            valid_state(self@),
    {
        proof {
            use_type_invariant(self);
        }
        let mut i: usize = 0;
        while i < self.posts.len()
            invariant
                i <= self.posts.len(),
                find_post(self@.take(i as int), id as nat) is None,
                valid_state(self@),
            decreases self.posts.len() - i,
        {
            proof {
                assert(self@.take(i + 1).drop_last() == self@.take(i as int));
                assert(self@.take(i + 1).last() == self.posts[i as int]@);
            }
            if self.posts[i].id == id {
                proof {
                    lemma_find_post_in_prefix(self@, i + 1, id as nat);
                }
                return Ok(self.posts[i].clone());
            }
            i = i + 1;
        }
        proof {
            assert(self@.take(i as int) == self@);
        }
        Err(StoreError::NotFound)
    }

    /// The largest id in the store, or zero where it holds no post.
    pub fn max_id(&self) -> (m: u32)
        ensures
            m == max_id(self@),
            valid_state(self@),
    {
        proof {
            use_type_invariant(self);
        }
        let mut m: u32 = 0;
        let mut i: usize = 0;
        while i < self.posts.len()
            invariant
                i <= self.posts.len(),
                m == max_id(self@.take(i as int)),
            decreases self.posts.len() - i,
        {
            proof {
                assert(self@.take(i + 1).drop_last() == self@.take(i as int));
                assert(self@.take(i + 1).last() == self.posts[i as int]@);
            }
            if self.posts[i].id > m {
                m = self.posts[i].id;
            }
            i = i + 1;
        }
        proof {
            assert(self@.take(i as int) == self@);
        }
        m
    }

    /// Stores a new post made of `input` and the next id, after all others,
    /// and returns a copy of it.
    pub fn create_post(&mut self, input: CreatePost) -> (post: Post)
        requires
            max_id(old(self)@) < u32::MAX,
        ensures
            post@ == created_post(old(self)@, input@),
            final(self)@ == after_create(old(self)@, input@),
            valid_state(final(self)@),
            max_id(final(self)@) == max_id(old(self)@) + 1,
    {
        proof {
            use_type_invariant(&*self);
            lemma_create_keeps_valid(self@, input@);
            assert(after_create(self@, input@).drop_last() == self@);
        }
        let new_id = self.max_id() + 1;
        let new_post = Post {
            id: new_id,
            title: input.title,
            content: input.content,
            author: input.author,
        };
        let mut posts: Vec<Post> = Vec::new();
        std::mem::swap(&mut posts, &mut self.posts);
        let ghost before = posts@;
        posts.push(new_post.clone());
        proof {
            assert(post_views(posts@) == post_views(before).push(new_post@));
        }
        self.posts = posts;
        new_post
    }
}

} // verus!
