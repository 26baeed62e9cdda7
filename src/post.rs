//! A post whose editorial state is a tag checked on every call.
//!
//! Every operation that is not valid in the current state is absorbed as a
//! no-op: there is no error channel. Appends are accepted only in `Draft`.
use vstd::prelude::*;

verus! {

/// The three editorial states of a post.
#[derive(Clone, Copy, Debug, PartialEq, Eq, Structural)]
pub enum State {
    Draft,
    PendingReview,
    Published,
}

/// The mathematical model of a post: its state, the text written while it
/// was a draft, and the text frozen at approval.
pub ghost struct PostModel {
    pub state: State,
    pub draft: Seq<char>,
    pub approved: Seq<char>,
}

impl PostModel {
    /// A fresh post: an empty draft.
    pub open spec fn initial() -> PostModel {
        PostModel { state: State::Draft, draft: Seq::empty(), approved: Seq::empty() }
    }

    /// What readers see: the approved text once published, nothing before.
    pub open spec fn content(self) -> Seq<char> {
        if self.state == State::Published {
            self.approved
        } else {
            Seq::empty()
        }
    }

    /// Appending is accepted only while drafting.
    pub open spec fn add_text(self, s: Seq<char>) -> PostModel {
        if self.state == State::Draft {
            PostModel { draft: self.draft + s, ..self }
        } else {
            self
        }
    }

    pub open spec fn request_review(self) -> PostModel {
        if self.state == State::Draft {
            PostModel { state: State::PendingReview, ..self }
        } else {
            self
        }
    }

    /// Approval freezes the draft as the published text.
    pub open spec fn approve(self) -> PostModel {
        if self.state == State::PendingReview {
            PostModel { state: State::Published, approved: self.draft, ..self }
        } else {
            self
        }
    }

    /// Rejecting a published post sends it back to drafting and withdraws
    /// the approved text; the draft is kept for further editing.
    pub open spec fn reject(self) -> PostModel {
        if self.state == State::Published {
            PostModel { state: State::Draft, approved: Seq::empty(), ..self }
        } else {
            self
        }
    }
}

/// A post that moves through `Draft`, `PendingReview` and `Published`.
pub struct Post {
    state: State,
    draft_text: String,
    approved_text: String,
}

impl View for Post {
    type V = PostModel;

    closed spec fn view(&self) -> PostModel {
        PostModel { state: self.state, draft: self.draft_text@, approved: self.approved_text@ }
    }
}

impl Post {
    pub fn new() -> (p: Post)
        ensures
            p@ == PostModel::initial(),
    {
        Post { state: State::Draft, draft_text: String::new(), approved_text: String::new() }
    }

    /// The current state.
    pub fn state(&self) -> (r: State)
        ensures
            r == self@.state,
    {
        self.state
    }

    /// Appends `text` to the draft; ignored outside `Draft`.
    pub fn add_text(&mut self, text: &str)
        ensures
            final(self)@ == old(self)@.add_text(text@),
    {
        if self.state == State::Draft {
            self.draft_text.append(text);
        }
    }

    /// Submits the draft for review; ignored outside `Draft`.
    pub fn request_review(&mut self)
        ensures
            final(self)@ == old(self)@.request_review(),
    {
        if self.state == State::Draft {
            self.state = State::PendingReview;
        }
    }

    /// Publishes the text under review; ignored outside `PendingReview`.
    pub fn approve(&mut self)
        ensures
            final(self)@ == old(self)@.approve(),
    {
        if self.state == State::PendingReview {
            self.approved_text = self.draft_text.clone();
            self.state = State::Published;
        }
    }

    /// Withdraws a published post back to `Draft`; ignored otherwise.
    pub fn reject(&mut self)
        ensures
            final(self)@ == old(self)@.reject(),
    {
        if self.state == State::Published {
            self.approved_text = String::new();
            self.state = State::Draft;
        }
    }

    /// The text readers see: empty unless the post is published.
    pub fn content(&self) -> (r: &str)
        ensures
            r@ == self@.content(),
    {
        if self.state == State::Published {
            self.approved_text.as_str()
        } else {
            proof {
                reveal_strlit("");
            }
            ""
        }
    }
}

/// The post after appending each text of `texts` in order.
pub open spec fn add_all(p: PostModel, texts: Seq<Seq<char>>) -> PostModel
    decreases texts.len(),
{
    if texts.len() == 0 {
        p
    } else {
        add_all(p, texts.drop_last()).add_text(texts.last())
    }
}

/// The texts of `texts` written one after another.
pub open spec fn joined(texts: Seq<Seq<char>>) -> Seq<char>
    decreases texts.len(),
{
    if texts.len() == 0 {
        Seq::empty()
    } else {
        joined(texts.drop_last()) + texts.last()
    }
}

/// However many texts are appended to a draft, it stays a draft and shows
/// nothing; the text appears only when review was requested and then
/// approved, and then it is exactly what was written.
pub proof fn lemma_appends_stay_hidden(p: PostModel, texts: Seq<Seq<char>>)
    requires
        p.state == State::Draft,
    ensures
        add_all(p, texts).state == State::Draft,
        add_all(p, texts).draft == p.draft + joined(texts),
        add_all(p, texts).content() == Seq::<char>::empty(),
        add_all(p, texts).approve().content() == Seq::<char>::empty(),
        add_all(p, texts).request_review().content() == Seq::<char>::empty(),
        add_all(p, texts).request_review().approve().content() == p.draft + joined(texts),
    decreases texts.len(),
{
    if texts.len() > 0 {
        lemma_appends_stay_hidden(p, texts.drop_last());
        assert(p.draft + joined(texts.drop_last()) + texts.last() =~= p.draft + joined(texts));
    }
}

/// A new post shows nothing after an append and after a review request;
/// only approval makes the text visible.
pub proof fn lemma_visible_only_after_approval(s: Seq<char>)
    ensures
        PostModel::initial().content() == Seq::<char>::empty(),
        PostModel::initial().add_text(s).content() == Seq::<char>::empty(),
        PostModel::initial().add_text(s).request_review().content() == Seq::<char>::empty(),
        PostModel::initial().add_text(s).request_review().approve().content() == s,
{
    assert(Seq::<char>::empty() + s =~= s);
}

/// Content is never visible outside `Published`, and no operation but
/// `approve` publishes a post.
pub proof fn lemma_only_approval_publishes(p: PostModel, s: Seq<char>)
    ensures
        p.content().len() > 0 ==> p.state == State::Published,
        p.state != State::Published ==> p.add_text(s).state != State::Published,
        p.state != State::Published ==> p.request_review().state != State::Published,
        p.state != State::Published ==> p.reject().state != State::Published,
        p.approve().state == State::Published ==> p.state != State::Draft,
{
}

/// Approving a post whose review was never requested changes nothing.
pub proof fn lemma_approve_draft_is_noop(p: PostModel)
    requires
        p.state == State::Draft,
    ensures
        p.approve() == p,
{
}

/// Once review is requested, appends are ignored, so the text that is
/// eventually published is the one submitted.
pub proof fn lemma_append_under_review_ignored(p: PostModel, s: Seq<char>)
    requires
        p.state == State::PendingReview,
    ensures
        p.add_text(s) == p,
        p.add_text(s).approve().content() == p.approve().content(),
        p.approve().content() == p.draft,
{
}

/// Rejecting a published post empties what readers see.
pub proof fn lemma_reject_clears_content(p: PostModel)
    requires
        p.state == State::Published,
    ensures
        p.reject().content() == Seq::<char>::empty(),
        p.reject().state == State::Draft,
        p.reject().draft == p.draft,
{
}

} // verus!
