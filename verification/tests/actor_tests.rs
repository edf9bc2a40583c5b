//! The link actor's lifecycle: connecting, polling commands, disconnecting.

use arduino_link::actor::{ActorState, CommandPoll, LinkAction, LinkActor, LinkError, ThreadMSG};

#[test]
fn a_fresh_actor_is_idle_with_a_zeroed_default_buffer() {
    let actor = LinkActor::new();
    assert_eq!(actor.state, ActorState::Idle);
    assert_eq!(actor.baud_rate, None);
    assert_eq!(actor.serial_buffer, vec![0u8; 32]);
}

#[test]
fn failed_open_leaves_the_actor_idle_and_retryable() {
    let mut actor = LinkActor::new();
    let r = actor.on_open_result(9600, false);
    assert_eq!(r, Err(LinkError::PortUnavailable));
    assert_eq!(actor.state, ActorState::Idle);
    assert_eq!(actor.baud_rate, None);
    // A retry on the same actor succeeds.
    assert_eq!(actor.on_open_result(9600, true), Ok(()));
    assert_eq!(actor.state, ActorState::Connected);
    assert_eq!(actor.baud_rate, Some(9600));
}

#[test]
fn opening_while_connected_is_refused() {
    let mut actor = LinkActor::new();
    actor.on_open_result(9600, true).unwrap();
    assert_eq!(actor.on_open_result(115200, true), Err(LinkError::AlreadyActive));
    assert_eq!(actor.state, ActorState::Connected);
    assert_eq!(actor.baud_rate, Some(9600));
}

#[test]
fn disconnect_while_connected_stops_then_idles() {
    let mut actor = LinkActor::new();
    actor.on_open_result(9600, true).unwrap();
    let action = actor.poll_command(CommandPoll::Received(ThreadMSG::Disconnect()));
    assert!(matches!(action, LinkAction::CloseLink));
    assert_eq!(actor.state, ActorState::Stopping);
    actor.disconnect();
    assert_eq!(actor.state, ActorState::Idle);
    assert_eq!(actor.baud_rate, None);
}

#[test]
fn disconnect_while_idle_is_ignored() {
    let mut actor = LinkActor::new();
    let action = actor.poll_command(CommandPoll::Received(ThreadMSG::Disconnect()));
    assert!(matches!(action, LinkAction::Continue));
    assert_eq!(actor.state, ActorState::Idle);
}

#[test]
fn a_closed_command_channel_exits_the_thread() {
    let mut actor = LinkActor::new();
    actor.on_open_result(9600, true).unwrap();
    let action = actor.poll_command(CommandPoll::Closed);
    assert!(matches!(action, LinkAction::ExitThread));
    assert_eq!(actor.state, ActorState::Stopping);
}

#[test]
fn an_empty_poll_changes_nothing() {
    let mut actor = LinkActor::new();
    actor.on_open_result(9600, true).unwrap();
    let action = actor.poll_command(CommandPoll::Empty);
    assert!(matches!(action, LinkAction::Continue));
    assert_eq!(actor.state, ActorState::Connected);
}

#[test]
fn start_while_idle_asks_for_the_port_to_be_opened() {
    let mut actor = LinkActor::new();
    let action = actor.poll_command(CommandPoll::Received(ThreadMSG::Start(
        "/dev/ttyACM0".to_owned(),
        9600,
    )));
    match action {
        LinkAction::OpenPort(path, baud) => {
            assert_eq!(path, "/dev/ttyACM0");
            assert_eq!(baud, 9600);
        },
        other => panic!("expected an open action, got {:?}", other),
    }
    assert_eq!(actor.state, ActorState::Idle);
}

#[test]
fn start_while_connected_is_ignored() {
    let mut actor = LinkActor::new();
    actor.on_open_result(9600, true).unwrap();
    let action = actor.poll_command(CommandPoll::Received(ThreadMSG::Start(
        "/dev/ttyACM1".to_owned(),
        115200,
    )));
    assert!(matches!(action, LinkAction::Continue));
    assert_eq!(actor.state, ActorState::Connected);
}

#[test]
fn data_messages_on_the_command_channel_are_ignored() {
    let mut actor = LinkActor::new();
    actor.on_open_result(9600, true).unwrap();
    let action = actor.poll_command(CommandPoll::Received(ThreadMSG::Data(
        arduino_link::packet::PacketData::Empty,
    )));
    assert!(matches!(action, LinkAction::Continue));
    assert_eq!(actor.state, ActorState::Connected);
}

#[test]
fn buffer_can_be_resized_and_flushed() {
    let mut actor = LinkActor::new();
    actor.modify_buffer_size(64);
    assert_eq!(actor.serial_buffer, vec![0u8; 64]);
    actor.flush_buffer();
    assert!(actor.serial_buffer.is_empty());
}
