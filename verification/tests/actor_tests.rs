//! The state actor: the initial state, each message's effect, and the
//! reader-facing responses.

use gitlab_tokens::state_actor::{ActorState, Message, StateActor};

#[test]
fn get_before_any_update_returns_loading() {
    let mut actor = StateActor::new();
    let effect = actor.handle(Message::Get);
    assert_eq!(effect.reply, Some(ActorState::Loading));
    assert!(!effect.start_refresh);
}

#[test]
fn update_starts_a_refresh_and_keeps_the_state() {
    let mut actor = StateActor::new();
    let effect = actor.handle(Message::Update);
    assert!(effect.start_refresh);
    assert!(effect.reply.is_none());
    let effect = actor.handle(Message::Get);
    assert_eq!(effect.reply, Some(ActorState::Loading));
}

#[test]
fn empty_snapshot_reads_as_no_token() {
    let mut actor = StateActor::new();
    actor.handle(Message::SetResult(Ok(String::new())));
    let effect = actor.handle(Message::Get);
    assert_eq!(effect.reply, Some(ActorState::NoToken));
}

#[test]
fn non_empty_snapshot_is_published_whole() {
    let mut actor = StateActor::new();
    actor.handle(Message::SetResult(Ok("line\n".to_string())));
    let effect = actor.handle(Message::Get);
    assert_eq!(effect.reply, Some(ActorState::Loaded("line\n".to_string())));
}

#[test]
fn failed_refresh_reads_as_error() {
    let mut actor = StateActor::new();
    actor.handle(Message::SetResult(Err("boom".to_string())));
    let effect = actor.handle(Message::Get);
    assert_eq!(effect.reply, Some(ActorState::Error("boom".to_string())));
}

#[test]
fn later_set_overwrites_earlier_state() {
    let mut actor = StateActor::new();
    actor.handle(Message::SetResult(Err("boom".to_string())));
    actor.handle(Message::SetResult(Ok("line\n".to_string())));
    let effect = actor.handle(Message::Get);
    assert_eq!(effect.reply, Some(ActorState::Loaded("line\n".to_string())));
}

#[test]
fn state_responses_for_readers() {
    assert_eq!(StateActor::state_response(&ActorState::Loading), (204, String::new()));
    assert_eq!(StateActor::state_response(&ActorState::NoToken), (204, String::new()));
    assert_eq!(
        StateActor::state_response(&ActorState::Loaded("body".to_string())),
        (200, "body".to_string())
    );
    assert_eq!(
        StateActor::state_response(&ActorState::Error("oops".to_string())),
        (500, "oops".to_string())
    );
}
