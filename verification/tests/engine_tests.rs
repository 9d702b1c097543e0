use dm_purge::engine::{Action, Engine, Event, StopReason, RETRY_DELAY_MS};
use dm_purge::models::{Args, Config, Message, MessageAuthor, State};

const SELF_ID: &str = "42";

fn msg(id: &str, author_id: &str, content: &str, attachments: &[&str]) -> Message {
    Message {
        id: id.to_string(),
        content: content.to_string(),
        timestamp: "2024-01-01T00:00:00Z".to_string(),
        author: MessageAuthor { id: author_id.to_string(), username: "someone".to_string() },
        attachments: attachments.iter().map(|a| a.to_string()).collect(),
    }
}

fn args() -> Args {
    Args {
        channel_id: "chan".to_string(),
        number: None,
        only_attachments: false,
        fetch_delay: 2000,
        delete_delay: 3000,
        filter: vec!["test".to_string()],
        before_id: None,
        after_id: None,
        output: None,
    }
}

fn state_with(args: Args) -> State {
    State {
        user_id: Some(SELF_ID.to_string()),
        deleted_count: 0,
        args,
        config: Config { user_token: "token".to_string() },
    }
}

fn expect_delete(a: &Action) -> String {
    match a {
        Action::Delete { channel_id, message } => {
            assert_eq!(channel_id.as_str(), "chan");
            message.id.clone()
        }
        _ => panic!("expected a delete action"),
    }
}

fn expect_sleep(a: &Action) -> u64 {
    match a {
        Action::SleepMs { ms } => *ms,
        _ => panic!("expected a sleep action"),
    }
}

fn expect_fetch(a: &Action) -> Option<String> {
    match a {
        Action::Fetch { channel_id, before } => {
            assert_eq!(channel_id.as_str(), "chan");
            before.clone()
        }
        _ => panic!("expected a fetch action"),
    }
}

fn expect_finished(a: &Action) -> StopReason {
    match a {
        Action::Finished { reason } => *reason,
        _ => panic!("expected the run to be finished"),
    }
}

#[test]
fn run_starts_with_fetch_at_configured_cursor() {
    let mut a = args();
    a.before_id = Some("500".to_string());
    let (_engine, action) = Engine::new(state_with(a));
    assert_eq!(expect_fetch(&action), Some("500".to_string()));

    let (_engine, action) = Engine::new(state_with(args()));
    assert_eq!(expect_fetch(&action), None);
}

#[test]
fn page_is_filtered_and_deleted_in_page_order() {
    // Message A is authored by self, B contains the filter string "test",
    // C matches neither: exactly A and B are deleted, in page order.
    let (mut engine, _) = Engine::new(state_with(args()));
    let page = vec![
        msg("9", SELF_ID, "my own words", &[]),
        msg("8", "7", "this is a TEST message", &[]),
        msg("7", "7", "innocent bystander", &[]),
    ];
    let a = engine.step(Event::Page { messages: page });
    assert_eq!(expect_delete(&a), "9");
    let a = engine.step(Event::DeleteOk);
    assert_eq!(expect_sleep(&a), 3000);
    let a = engine.step(Event::Slept);
    assert_eq!(expect_delete(&a), "8");
    let a = engine.step(Event::DeleteOk);
    assert_eq!(expect_sleep(&a), 3000);
    // C is skipped: the page is exhausted, so the engine paces and refetches.
    let a = engine.step(Event::Slept);
    assert_eq!(expect_sleep(&a), 2000);
    assert_eq!(engine.state.deleted_count, 2);
}

#[test]
fn transient_delete_failures_are_retried_with_fixed_backoff() {
    // Two transient failures, then success: three delete requests for the
    // same message, a 5-second sleep before attempts two and three, and the
    // counter incremented exactly once.
    let (mut engine, _) = Engine::new(state_with(args()));
    let a = engine.step(Event::Page { messages: vec![msg("9", SELF_ID, "x", &[])] });
    assert_eq!(expect_delete(&a), "9");
    let a = engine.step(Event::DeleteFailed);
    assert_eq!(expect_sleep(&a), RETRY_DELAY_MS);
    let a = engine.step(Event::Slept);
    assert_eq!(expect_delete(&a), "9");
    let a = engine.step(Event::DeleteFailed);
    assert_eq!(expect_sleep(&a), RETRY_DELAY_MS);
    let a = engine.step(Event::Slept);
    assert_eq!(expect_delete(&a), "9");
    let a = engine.step(Event::DeleteOk);
    assert_eq!(expect_sleep(&a), 3000);
    assert_eq!(engine.state.deleted_count, 1);
}

#[test]
fn transient_fetch_failures_are_retried_with_fixed_backoff() {
    let mut a = args();
    a.before_id = Some("123".to_string());
    let (mut engine, _) = Engine::new(state_with(a));
    let act = engine.step(Event::FetchFailed);
    assert_eq!(expect_sleep(&act), RETRY_DELAY_MS);
    // The retried request carries the same cursor.
    let act = engine.step(Event::Slept);
    assert_eq!(expect_fetch(&act), Some("123".to_string()));
}

#[test]
fn empty_page_finishes_the_run() {
    let (mut engine, _) = Engine::new(state_with(args()));
    let a = engine.step(Event::Page { messages: Vec::new() });
    assert_eq!(expect_finished(&a), StopReason::EndOfHistory);
}

#[test]
fn cursor_follows_last_message_of_each_nonempty_page() {
    let (mut engine, _) = Engine::new(state_with(args()));
    // No message qualifies: the engine paces, then fetches with the cursor
    // at the last (oldest) message of the page just consumed.
    let page = vec![
        msg("9", "7", "nothing", &[]),
        msg("8", "7", "nothing", &[]),
        msg("7", "7", "nothing", &[]),
    ];
    let a = engine.step(Event::Page { messages: page });
    assert_eq!(expect_sleep(&a), 2000);
    let a = engine.step(Event::Slept);
    assert_eq!(expect_fetch(&a), Some("7".to_string()));
    // And again for the following page.
    let page = vec![msg("6", "7", "nothing", &[]), msg("5", "7", "nothing", &[])];
    let a = engine.step(Event::Page { messages: page });
    assert_eq!(expect_sleep(&a), 2000);
    let a = engine.step(Event::Slept);
    assert_eq!(expect_fetch(&a), Some("5".to_string()));
}

#[test]
fn deletion_cap_finishes_the_run_at_once() {
    let mut a = args();
    a.number = Some(2);
    let (mut engine, _) = Engine::new(state_with(a));
    let page = vec![
        msg("9", SELF_ID, "x", &[]),
        msg("8", SELF_ID, "y", &[]),
        msg("7", SELF_ID, "z", &[]),
    ];
    let act = engine.step(Event::Page { messages: page });
    assert_eq!(expect_delete(&act), "9");
    let act = engine.step(Event::DeleteOk);
    assert_eq!(expect_sleep(&act), 3000);
    let act = engine.step(Event::Slept);
    assert_eq!(expect_delete(&act), "8");
    // The second success reaches the cap: the run finishes with no further
    // delete request for the third candidate.
    let act = engine.step(Event::DeleteOk);
    assert_eq!(expect_finished(&act), StopReason::ReachedNumber);
    assert_eq!(engine.state.deleted_count, 2);
}

#[test]
fn boundary_message_is_never_deleted() {
    let mut a = args();
    a.after_id = Some("8".to_string());
    let (mut engine, _) = Engine::new(state_with(a));
    let page = vec![msg("9", SELF_ID, "x", &[]), msg("8", SELF_ID, "y", &[])];
    let act = engine.step(Event::Page { messages: page });
    assert_eq!(expect_delete(&act), "9");
    let act = engine.step(Event::DeleteOk);
    assert_eq!(expect_sleep(&act), 3000);
    // The next candidate is the boundary: the run finishes without asking
    // for its deletion.
    let act = engine.step(Event::Slept);
    assert_eq!(expect_finished(&act), StopReason::ReachedBoundary);
    assert_eq!(engine.state.deleted_count, 1);
}

#[test]
fn attachmentless_messages_are_skipped_when_only_attachments() {
    let mut a = args();
    a.only_attachments = true;
    let (mut engine, _) = Engine::new(state_with(a));
    // The first qualifying message has no attachments: it is skipped, no
    // delete is issued for it and the counter stays unchanged.
    let page = vec![msg("9", SELF_ID, "x", &[]), msg("8", SELF_ID, "y", &["file.png"])];
    let act = engine.step(Event::Page { messages: page });
    assert_eq!(expect_delete(&act), "8");
    assert_eq!(engine.state.deleted_count, 0);
    let act = engine.step(Event::DeleteOk);
    assert_eq!(expect_sleep(&act), 3000);
    assert_eq!(engine.state.deleted_count, 1);
}

#[test]
fn page_with_only_attachmentless_candidates_paces_and_refetches() {
    let mut a = args();
    a.only_attachments = true;
    let (mut engine, _) = Engine::new(state_with(a));
    let page = vec![msg("9", SELF_ID, "x", &[]), msg("8", SELF_ID, "y", &[])];
    let act = engine.step(Event::Page { messages: page });
    assert_eq!(expect_sleep(&act), 2000);
    assert_eq!(engine.state.deleted_count, 0);
    let act = engine.step(Event::Slept);
    assert_eq!(expect_fetch(&act), Some("8".to_string()));
}
