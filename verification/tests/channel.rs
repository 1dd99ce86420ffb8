use atomics_locks::one_shot_channel::{typed_channel, unsafe_channel};

#[test]
fn runtime_checked_channel_delivers_the_message() {
    let mut channel = unsafe_channel::Channel::new();
    assert!(!channel.is_ready());
    assert!(channel.send("hello world").is_ok());
    assert!(channel.is_ready());
    assert_eq!(channel.receive(), Some("hello world"));
    assert!(!channel.is_ready());
}

#[test]
fn runtime_checked_channel_reports_a_second_send() {
    let mut channel = unsafe_channel::Channel::new();
    assert!(channel.send("hello world").is_ok());
    // The second send is a protocol violation: reported, the message handed
    // back, and the channel untouched.
    assert_eq!(channel.send("again"), Err("again"));
    assert_eq!(channel.receive(), Some("hello world"));
}

#[test]
fn runtime_checked_channel_reports_a_receive_before_any_send() {
    let mut channel = unsafe_channel::Channel::<u32>::new();
    assert_eq!(channel.receive(), None);
    // The violation left the channel usable.
    assert!(channel.send(11).is_ok());
    assert_eq!(channel.receive(), Some(11));
}

#[test]
fn runtime_checked_channel_reports_a_second_receive() {
    let mut channel = unsafe_channel::Channel::new();
    assert!(channel.send("hello world").is_ok());
    assert_eq!(channel.receive(), Some("hello world"));
    assert_eq!(channel.receive(), None);
}

#[test]
fn typed_channel_delivers_the_message() {
    let channel = typed_channel::Channel::new();
    let (sender, mut receiver) = channel.split();
    assert!(!receiver.is_ready());
    sender.send(&mut receiver, "hello world");
    assert!(receiver.is_ready());
    assert_eq!(receiver.receive(), "hello world");
}

#[test]
fn typed_channel_keeps_the_message_intact() {
    let channel = typed_channel::Channel::new();
    let (sender, mut receiver) = channel.split();
    let payload: Vec<u8> = vec![0, 1, 2, 250, 251, 252];
    sender.send(&mut receiver, payload.clone());
    assert_eq!(receiver.receive(), payload);
}
