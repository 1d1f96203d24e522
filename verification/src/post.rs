//! Post records and the input from which a post is created.

use vstd::prelude::*;

verus! {

/// What a post holds, as mathematical values.
pub struct PostView {
    pub id: nat,
    pub title: Seq<char>,
    pub content: Seq<char>,
    pub author: Seq<char>,
}

/// What a create request holds, as mathematical values.
pub struct CreatePostView {
    pub title: Seq<char>,
    pub content: Seq<char>,
    pub author: Seq<char>,
}

/// A stored blog entry. The id is assigned by the store, the three texts
/// come from the caller and are kept as given.
#[derive(Debug, PartialEq, Eq)]
pub struct Post {
    pub id: u32,
    pub title: String,
    pub content: String,
    pub author: String,
}

/// The caller's part of a post: everything but the id.
#[derive(Debug, PartialEq, Eq)]
pub struct CreatePost {
    pub title: String,
    pub content: String,
    pub author: String,
}

impl View for Post {
    type V = PostView;

    open spec fn view(&self) -> PostView {
        PostView {
            id: self.id as nat,
            title: self.title@,
            content: self.content@,
            author: self.author@,
        }
    }
}

impl DeepView for Post {
    type V = PostView;

    open spec fn deep_view(&self) -> PostView {
        self@
    }
}

impl View for CreatePost {
    type V = CreatePostView;

    open spec fn view(&self) -> CreatePostView {
        CreatePostView { title: self.title@, content: self.content@, author: self.author@ }
    }
}

impl Clone for Post {
    /// An independent copy, equal to `self` in every field.
    fn clone(&self) -> (copy: Self)
        ensures
            copy == *self,
    {
        Post {
            id: self.id,
            title: self.title.clone(),
            content: self.content.clone(),
            author: self.author.clone(),
        }
    }
}

impl Clone for CreatePost {
    /// An independent copy, equal to `self` in every field.
    fn clone(&self) -> (copy: Self)
        ensures
            copy == *self,
    {
        CreatePost {
            title: self.title.clone(),
            content: self.content.clone(),
            author: self.author.clone(),
        }
    }
}

/// The views of a sequence of posts, in the same order.
pub open spec fn post_views(posts: Seq<Post>) -> Seq<PostView> {
    Seq::new(posts.len(), |i: int| posts[i]@)
}

} // verus!
