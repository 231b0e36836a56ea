use mcrw::channel::{CommandChannel, Submission};
use mcrw::forwarder::{console_read, forward, ConsoleRead, ForwarderAction};
use mcrw::writer::{InputWriter, WriterAction};

fn written(action: WriterAction) -> String {
    match action {
        WriterAction::Write(text) => text,
        other => panic!("expected a write, got {:?}", other),
    }
}

#[test]
fn writer_writes_commands_normalized_in_order() {
    let mut channel = CommandChannel::new(4);
    let mut writer = InputWriter::new();
    for cmd in ["say a", "say b\n", "say c"] {
        assert!(matches!(channel.submit(cmd.to_string()), Submission::Accepted));
    }
    assert_eq!(written(writer.next_action(&mut channel)), "say a\n");
    assert_eq!(written(writer.next_action(&mut channel)), "say b\n");
    assert_eq!(written(writer.next_action(&mut channel)), "say c\n");
    assert!(matches!(writer.next_action(&mut channel), WriterAction::Wait));
    assert!(!writer.is_stopped());
}

#[test]
fn writer_waits_on_an_empty_open_channel() {
    let mut channel = CommandChannel::new(1);
    let mut writer = InputWriter::new();
    assert!(matches!(writer.next_action(&mut channel), WriterAction::Wait));
    assert!(matches!(channel.submit("x".to_string()), Submission::Accepted));
    assert_eq!(written(writer.next_action(&mut channel)), "x\n");
}

#[test]
fn writer_ends_when_the_channel_is_drained() {
    let mut channel = CommandChannel::new(2);
    let mut writer = InputWriter::new();
    assert!(matches!(channel.submit("last".to_string()), Submission::Accepted));
    channel.close();
    assert_eq!(written(writer.next_action(&mut channel)), "last\n");
    assert!(matches!(writer.next_action(&mut channel), WriterAction::Stop));
    assert!(writer.is_stopped());
}

#[test]
fn failed_write_ends_the_writer_for_good() {
    let mut channel = CommandChannel::new(3);
    let mut writer = InputWriter::new();
    assert!(matches!(channel.submit("a".to_string()), Submission::Accepted));
    assert!(matches!(channel.submit("b".to_string()), Submission::Accepted));
    assert_eq!(written(writer.next_action(&mut channel)), "a\n");
    writer.fail();
    assert!(writer.is_stopped());
    assert!(matches!(writer.next_action(&mut channel), WriterAction::Stop));
    // producers may keep submitting; nothing is taken any more
    assert!(matches!(channel.submit("c".to_string()), Submission::Accepted));
    assert!(matches!(writer.next_action(&mut channel), WriterAction::Stop));
    assert_eq!(channel.len(), 2);
    assert!(writer.is_stopped());
}

#[test]
fn console_read_tells_lines_from_the_end() {
    match console_read(Some(5), "stop\n".to_string()) {
        ConsoleRead::Line(line) => assert_eq!(line, "stop\n"),
        other => panic!("expected a line, got {:?}", other),
    }
    assert!(matches!(console_read(Some(0), String::new()), ConsoleRead::End));
    assert!(matches!(console_read(None, "partial".to_string()), ConsoleRead::End));
}

#[test]
fn forwarder_submits_lines_unmodified() {
    let mut channel = CommandChannel::new(2);
    let action = forward(&mut channel, ConsoleRead::Line("list\n".to_string()));
    assert!(matches!(action, ForwarderAction::ReadNext));
    let action = forward(&mut channel, ConsoleRead::Line("no newline".to_string()));
    assert!(matches!(action, ForwarderAction::ReadNext));
    let mut writer = InputWriter::new();
    assert_eq!(written(writer.next_action(&mut channel)), "list\n");
    assert_eq!(written(writer.next_action(&mut channel)), "no newline\n");
}

#[test]
fn forwarder_waits_for_room_with_the_same_line() {
    let mut channel = CommandChannel::new(1);
    assert!(matches!(channel.submit("busy".to_string()), Submission::Accepted));
    match forward(&mut channel, ConsoleRead::Line("typed\n".to_string())) {
        ForwarderAction::WaitForRoom(line) => assert_eq!(line, "typed\n"),
        other => panic!("expected to wait for room, got {:?}", other),
    }
    assert_eq!(channel.len(), 1);
}

#[test]
fn forwarder_stops_at_the_end_of_the_console() {
    let mut channel = CommandChannel::new(1);
    assert!(matches!(forward(&mut channel, ConsoleRead::End), ForwarderAction::Stop));
    assert!(channel.is_empty());
}

#[test]
fn forwarder_stops_when_the_channel_is_closed() {
    let mut channel = CommandChannel::new(1);
    channel.close();
    let action = forward(&mut channel, ConsoleRead::Line("typed\n".to_string()));
    assert!(matches!(action, ForwarderAction::Stop));
    assert!(channel.is_empty());
}
