//! The post.

use vstd::prelude::*;
use crate::key::Key;

verus! {

/// A post as it is stored.
#[derive(Clone, Debug, PartialEq, Eq)]
pub struct Post {
    /// The participant record that wrote the post.
    pub author: Key,
    /// Time of writing, in seconds.
    pub created_at: i64,
    /// Position among the author's posts, counted from zero.
    pub sequence: u32,
    /// Whether the post takes comments and reactions.
    pub interactable: bool,
    pub content: String,
    pub bump: u8,
}

/// A post as a mathematical value.
pub struct PostView {
    pub author: Key,
    pub created_at: i64,
    pub sequence: u32,
    pub interactable: bool,
    pub content: Seq<char>,
    pub bump: u8,
}

impl View for Post {
    type V = PostView;

    open spec fn view(&self) -> PostView {
        PostView {
            author: self.author,
            created_at: self.created_at,
            sequence: self.sequence,
            interactable: self.interactable,
            content: self.content@,
            bump: self.bump,
        }
    }
}

} // verus!
