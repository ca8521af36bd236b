use shared_prims::blog;
use shared_prims::blog_typed;

#[test]
fn a_post_shows_content_only_once_published() {
    let mut post = blog::Post::new();

    post.add_text("I ate a salad for lunch today");
    assert_eq!("", post.content());

    post.request_review();
    assert_eq!("", post.content());

    post.approve();
    assert_eq!("I ate a salad for lunch today", post.content());
}

#[test]
fn approving_a_draft_does_nothing() {
    let mut post = blog::Post::new();
    post.add_text("not reviewed yet");
    post.approve();
    assert_eq!("", post.content());
    post.request_review();
    post.request_review();
    post.approve();
    assert_eq!("not reviewed yet", post.content());
}

#[test]
fn the_typed_workflow_carries_the_text_through() {
    let mut post = blog_typed::Post::new();

    post.add_text("I ate a salad for lunch today");

    let post = post.request_review();

    let post = post.approve();

    assert_eq!("I ate a salad for lunch today", post.content());
}
