use oop::typed_post::Draft;

#[test]
fn typed_post_publishes_its_text() {
    let post = Draft::new().add_text("x").request_review().approve();
    assert_eq!("x", post.content());
}

#[test]
fn typed_post_hides_text_until_published() {
    let draft = Draft::new();
    assert_eq!("", draft.content());
    let draft = draft.add_text("I ate a gyudon");
    assert_eq!("", draft.content());
    let draft = draft.add_text(" for lunch today");
    assert_eq!("", draft.content());
    let pending = draft.request_review();
    assert_eq!("", pending.content());
    let published = pending.approve();
    assert_eq!("I ate a gyudon for lunch today", published.content());
}

#[test]
fn typed_reject_returns_a_draft_with_the_text() {
    let published = Draft::new().add_text("first").request_review().approve();
    let draft = published.reject();
    assert_eq!("", draft.content());
    let again = draft.add_text(" edit").request_review().approve();
    assert_eq!("first edit", again.content());
}
