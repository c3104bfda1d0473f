//! Blog posts.

use crate::lookup::Keyed;
use crate::time::Timestamp;
use vstd::prelude::*;

verus! {

/// Who wrote a post.
#[derive(Debug, PartialEq, Eq)]
pub struct ApiPostAuthor {
    pub name: String,
    pub avatar_url: String,
}

/// What an `ApiPostAuthor` holds.
pub struct PostAuthorView {
    pub name: Seq<char>,
    pub avatar_url: Seq<char>,
}

impl View for ApiPostAuthor {
    type V = PostAuthorView;

    open spec fn view(&self) -> PostAuthorView {
        PostAuthorView { name: self.name@, avatar_url: self.avatar_url@ }
    }
}

impl DeepView for ApiPostAuthor {
    type V = PostAuthorView;

    open spec fn deep_view(&self) -> PostAuthorView {
        self@
    }
}

impl Clone for ApiPostAuthor {
    fn clone(&self) -> (r: Self)
        ensures
            r@ == self@,
    {
        ApiPostAuthor { name: self.name.clone(), avatar_url: self.avatar_url.clone() }
    }
}

/// A blog post. Posts are looked up by `slug`.
#[derive(Debug, PartialEq, Eq)]
pub struct ApiBlogPost {
    pub id: String,
    pub slug: String,
    pub title: String,
    pub summary: String,
    pub image_url: String,
    pub author: ApiPostAuthor,
    pub published_at: Option<Timestamp>,
    pub tags: Vec<String>,
    pub content: Option<String>,
}

/// What an `ApiBlogPost` holds.
pub struct BlogPostView {
    pub id: Seq<char>,
    pub slug: Seq<char>,
    pub title: Seq<char>,
    pub summary: Seq<char>,
    pub image_url: Seq<char>,
    pub author: PostAuthorView,
    pub published_at: Option<int>,
    pub tags: Seq<Seq<char>>,
    pub content: Option<Seq<char>>,
}

impl View for ApiBlogPost {
    type V = BlogPostView;

    open spec fn view(&self) -> BlogPostView {
        BlogPostView {
            id: self.id@,
            slug: self.slug@,
            title: self.title@,
            summary: self.summary@,
            image_url: self.image_url@,
            author: self.author@,
            published_at: self.published_at.deep_view(),
            tags: self.tags.deep_view(),
            content: self.content.deep_view(),
        }
    }
}

impl DeepView for ApiBlogPost {
    type V = BlogPostView;

    open spec fn deep_view(&self) -> BlogPostView {
        self@
    }
}

impl Clone for ApiBlogPost {
    fn clone(&self) -> (r: Self)
        ensures
            r@ == self@,
    {
        ApiBlogPost {
            id: self.id.clone(),
            slug: self.slug.clone(),
            title: self.title.clone(),
            summary: self.summary.clone(),
            image_url: self.image_url.clone(),
            author: self.author.clone(),
            published_at: self.published_at,
            tags: self.tags.clone(),
            content: self.content.clone(),
        }
    }
}

impl Keyed for ApiBlogPost {
    open spec fn key_text(&self) -> Seq<char> {
        self.slug@
    }

    fn key(&self) -> (k: &str) {
        self.slug.as_str()
    }
}

/// The slug of each post, in order.
pub open spec fn post_slugs(posts: Seq<BlogPostView>) -> Seq<Seq<char>> {
    posts.map_values(|p: BlogPostView| p.slug)
}

/// The id of each post, in order.
pub open spec fn post_ids(posts: Seq<BlogPostView>) -> Seq<Seq<char>> {
    posts.map_values(|p: BlogPostView| p.id)
}

} // verus!
