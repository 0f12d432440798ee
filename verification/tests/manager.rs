use spoticord::error::Error;
use spoticord::handle::{
    Asked, BridgeProgress, BridgeStep, Delivery, SessionHandle, TransportEvent,
};
use spoticord::manager::{Dispatch, SessionManager, SessionQuery};
use spoticord::protocol::SessionCommand;

fn fresh() -> BridgeProgress {
    BridgeProgress { active: Asked::NotYet, owner: Asked::NotYet }
}

#[test]
fn empty_registry_finds_nothing() {
    let manager = SessionManager::new();
    assert_eq!(manager.get_session(SessionQuery::Guild(1)), None);
    assert_eq!(manager.get_session(SessionQuery::Owner(1)), None);
    assert_eq!(manager.get_all_sessions(), vec![]);
    assert_eq!(manager.shutdown_all(), vec![]);
}

#[test]
fn insert_indexes_by_guild_and_owner() {
    let mut manager = SessionManager::new();
    let handle = SessionHandle::new(10, 20, 30, 1);
    manager.insert(handle, 5);
    assert_eq!(manager.get_session(SessionQuery::Guild(10)), Some(handle));
    assert_eq!(manager.get_session(SessionQuery::Owner(5)), Some(handle));
    assert_eq!(manager.get_session(SessionQuery::Guild(5)), None);
    assert_eq!(manager.get_session(SessionQuery::Owner(10)), None);
}

#[test]
fn set_owner_touches_the_owner_index_only() {
    let mut manager = SessionManager::new();
    let handle = SessionHandle::new(10, 20, 30, 1);
    manager.insert(handle, 5);
    manager.remove_session(SessionQuery::Owner(5));
    manager.set_owner(6, handle);
    assert_eq!(manager.get_session(SessionQuery::Owner(6)), Some(handle));
    assert_eq!(manager.get_session(SessionQuery::Owner(5)), None);
    assert_eq!(manager.get_session(SessionQuery::Guild(10)), Some(handle));
    assert_eq!(manager.get_all_sessions(), vec![handle]);
}

#[test]
fn a_guild_has_one_session() {
    let mut manager = SessionManager::new();
    let first = SessionHandle::new(10, 20, 30, 1);
    let second = SessionHandle::new(10, 21, 31, 2);
    manager.insert(first, 5);
    manager.insert(second, 6);
    assert_eq!(manager.get_session(SessionQuery::Guild(10)), Some(second));
    assert_eq!(manager.get_all_sessions(), vec![second]);
}

#[test]
fn remove_is_idempotent() {
    let mut manager = SessionManager::new();
    let handle = SessionHandle::new(10, 20, 30, 1);
    manager.insert(handle, 5);
    manager.remove_session(SessionQuery::Owner(5));
    assert_eq!(manager.get_session(SessionQuery::Owner(5)), None);
    assert_eq!(manager.get_session(SessionQuery::Guild(10)), Some(handle));
    manager.remove_session(SessionQuery::Owner(5));
    manager.remove_session(SessionQuery::Owner(77));
    assert_eq!(manager.get_session(SessionQuery::Guild(10)), Some(handle));
    manager.remove_session(SessionQuery::Guild(10));
    manager.remove_session(SessionQuery::Guild(10));
    assert_eq!(manager.get_session(SessionQuery::Guild(10)), None);
}

#[test]
fn shutdown_all_orders_every_session_to_disconnect() {
    let mut manager = SessionManager::new();
    let a = SessionHandle::new(10, 20, 30, 1);
    let b = SessionHandle::new(11, 21, 31, 2);
    let c = SessionHandle::new(12, 22, 32, 3);
    manager.insert(a, 5);
    manager.insert(b, 6);
    manager.insert(c, 7);
    manager.remove_session(SessionQuery::Owner(6));
    let mut orders = manager.shutdown_all();
    orders.sort_by_key(|order| order.to.guild);
    assert_eq!(
        orders,
        vec![
            Dispatch { to: a, command: SessionCommand::Disconnect },
            Dispatch { to: b, command: SessionCommand::Disconnect },
            Dispatch { to: c, command: SessionCommand::Disconnect },
        ]
    );
    let mut handles = manager.get_all_sessions();
    handles.sort_by_key(|handle| handle.guild);
    assert_eq!(handles, vec![a, b, c]);
}

#[test]
fn handle_names_its_session() {
    let handle = SessionHandle::new(10, 20, 30, 1);
    assert_eq!(handle.guild(), 10);
    assert_eq!(handle.voice_channel(), 20);
    assert_eq!(handle.text_channel(), 30);
    assert!(handle.is_valid(false));
    assert!(!handle.is_valid(true));
}

#[test]
fn forced_disconnect_disconnects_the_session() {
    let handle = SessionHandle::new(10, 20, 30, 1);
    let step = handle.act(false, TransportEvent::DriverDisconnect, &fresh());
    assert_eq!(
        step,
        BridgeStep::Done { command: Some(SessionCommand::Disconnect), cancel: false }
    );
}

#[test]
fn stale_handle_drops_its_callback() {
    let handle = SessionHandle::new(10, 20, 30, 1);
    let done = BridgeStep::Done { command: None, cancel: true };
    assert_eq!(handle.act(true, TransportEvent::DriverDisconnect, &fresh()), done);
    assert_eq!(
        handle.act(true, TransportEvent::ClientDisconnect { user_id: 5 }, &fresh()),
        done
    );
    assert_eq!(handle.act(true, TransportEvent::Other, &fresh()), done);
}

#[test]
fn owner_leaving_shuts_the_producer_down() {
    let handle = SessionHandle::new(10, 20, 30, 1);
    let event = TransportEvent::ClientDisconnect { user_id: 5 };
    let mut progress = fresh();
    assert_eq!(handle.act(false, event, &progress), BridgeStep::Ask(SessionCommand::GetActive));
    progress.active = Asked::Answered(true);
    assert_eq!(handle.act(false, event, &progress), BridgeStep::Ask(SessionCommand::GetOwner));
    progress.owner = Asked::Answered(5);
    assert_eq!(
        handle.act(false, event, &progress),
        BridgeStep::Done { command: Some(SessionCommand::ShutdownPlayer), cancel: false }
    );
}

#[test]
fn others_leaving_changes_nothing() {
    let handle = SessionHandle::new(10, 20, 30, 1);
    let event = TransportEvent::ClientDisconnect { user_id: 6 };
    let nothing = BridgeStep::Done { command: None, cancel: false };
    let progress = BridgeProgress { active: Asked::Answered(true), owner: Asked::Answered(5) };
    assert_eq!(handle.act(false, event, &progress), nothing);
    let progress = BridgeProgress { active: Asked::Answered(true), owner: Asked::Failed };
    assert_eq!(handle.act(false, event, &progress), nothing);
    let progress = BridgeProgress { active: Asked::Answered(false), owner: Asked::NotYet };
    assert_eq!(handle.act(false, event, &progress), nothing);
    let progress = BridgeProgress { active: Asked::Failed, owner: Asked::NotYet };
    assert_eq!(handle.act(false, event, &progress), nothing);
    assert_eq!(handle.act(false, TransportEvent::Other, &fresh()), nothing);
}

#[test]
fn queries_fail_with_channel_closed_when_the_session_is_gone() {
    let handle = SessionHandle::new(10, 20, 30, 1);
    let closed = Err(Error::Other("channel closed".to_string()));
    assert_eq!(handle.owner(Delivery::Answered(5)), Ok(5));
    assert_eq!(handle.owner(Delivery::Closed), closed);
    assert_eq!(handle.owner(Delivery::Dropped), closed);
    assert_eq!(handle.player(Delivery::Answered(3)), Ok(3));
    assert_eq!(handle.player(Delivery::Closed), closed);
    assert_eq!(handle.active(Delivery::Answered(true)), Ok(true));
    assert_eq!(handle.active(Delivery::Dropped), Err(Error::Other("channel closed".to_string())));
    assert_eq!(handle.reactivate(Delivery::Answered(Ok(()))), Ok(()));
    assert_eq!(
        handle.reactivate(Delivery::Answered(Err(Error::AlreadyActive))),
        Err(Error::AlreadyActive)
    );
    assert_eq!(
        handle.reactivate(Delivery::Closed),
        Err(Error::Other("channel closed".to_string()))
    );
}

#[test]
fn errors_render_their_messages() {
    assert_eq!(
        Error::InvalidChannel.message(),
        "The specified channel is invalid for this operation"
    );
    assert_eq!(Error::AuthenticationFailed.message(), "Authentication failed");
    assert_eq!(
        Error::AlreadyActive.message(),
        "Cannot perform this action on an active session"
    );
    assert_eq!(Error::Other("a".to_string()).message(), "a");
    assert_eq!(Error::Serenity("b".to_string()).message(), "b");
    assert_eq!(Error::Storage("c".to_string()).message(), "c");
    assert_eq!(Error::JoinError("d".to_string()).message(), "d");
    assert_eq!(Error::Librespot("e".to_string()).message(), "e");
}

#[test]
fn commands_are_not_sent_to_a_session_that_is_gone() {
    let handle = SessionHandle::new(10, 20, 30, 1);
    assert_eq!(handle.disconnect(false), Some(SessionCommand::Disconnect));
    assert_eq!(handle.disconnect(true), None);
    assert_eq!(handle.disconnect(true), None);
    assert_eq!(handle.shutdown_player(false), Some(SessionCommand::ShutdownPlayer));
    assert_eq!(handle.shutdown_player(true), None);
    assert_eq!(handle.create_playback_embed(false), Ok(SessionCommand::CreatePlaybackEmbed));
    assert_eq!(
        handle.create_playback_embed(true),
        Err(Error::Other("channel closed".to_string()))
    );
    assert_eq!(handle.create_lyrics_embed(false), Ok(SessionCommand::CreateLyricsEmbed));
    assert_eq!(
        handle.create_lyrics_embed(true),
        Err(Error::Other("channel closed".to_string()))
    );
}
