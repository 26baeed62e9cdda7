//! A post whose editorial state is its type.
//!
//! Each transition takes the post by value and returns it in the type of the
//! next state, so a call that is not valid in the current state does not
//! compile: a `Draft` has no `approve`, a `PendingReview` no `add_text`.
//! `reject` follows the same discipline: it consumes the `Published` post
//! and hands back a `Draft` that still holds the text written so far.
use vstd::prelude::*;

verus! {

/// A post being written.
pub struct Draft {
    text: String,
}

/// A post waiting for approval; its text can no longer change.
pub struct PendingReview {
    text: String,
}

/// An approved post, whose text readers see.
pub struct Published {
    text: String,
}

impl View for Draft {
    type V = Seq<char>;

    closed spec fn view(&self) -> Seq<char> {
        self.text@
    }
}

impl View for PendingReview {
    type V = Seq<char>;

    closed spec fn view(&self) -> Seq<char> {
        self.text@
    }
}

impl View for Published {
    type V = Seq<char>;

    closed spec fn view(&self) -> Seq<char> {
        self.text@
    }
}

impl Draft {
    pub fn new() -> (d: Draft)
        ensures
            d@ == Seq::<char>::empty(),
    {
        Draft { text: String::new() }
    }

    /// The draft with `s` appended.
    pub fn add_text(self, s: &str) -> (d: Draft)
        ensures
            d@ == self@ + s@,
    {
        let mut text = self.text;
        text.append(s);
        Draft { text }
    }

    /// Submits the draft; its text is carried into review unchanged.
    pub fn request_review(self) -> (p: PendingReview)
        ensures
            p@ == self@,
    {
        PendingReview { text: self.text }
    }

    /// A draft shows nothing.
    pub fn content(&self) -> (r: &str)
        ensures
            r@ == Seq::<char>::empty(),
    {
        proof {
            reveal_strlit("");
        }
        ""
    }
}

impl PendingReview {
    /// Publishes the text under review.
    pub fn approve(self) -> (p: Published)
        ensures
            p@ == self@,
    {
        Published { text: self.text }
    }

    /// A post under review shows nothing.
    pub fn content(&self) -> (r: &str)
        ensures
            r@ == Seq::<char>::empty(),
    {
        proof {
            reveal_strlit("");
        }
        ""
    }
}

impl Published {
    /// The approved text.
    pub fn content(&self) -> (r: &str)
        ensures
            r@ == self@,
    {
        self.text.as_str()
    }

    /// Withdraws the post: readers see nothing any more, and the author
    /// gets back a draft holding the text that had been approved.
    pub fn reject(self) -> (d: Draft)
        ensures
            d@ == self@,
    {
        Draft { text: self.text }
    }
}

} // verus!
