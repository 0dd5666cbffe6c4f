use airsoft_v2::mailbox::{rng_serve, Mailbox, ReplyChannel, RngCommand, TaskSenders};
use airsoft_v2::outputs::SoundCommand;

#[test]
fn mailbox_delivers_in_send_order() {
    let mut mailbox: Mailbox<u32> = Mailbox::with_capacity(4);
    assert!(mailbox.notify(1));
    assert!(mailbox.notify(2));
    assert!(mailbox.notify(3));
    assert_eq!(mailbox.receive(), Some(1));
    assert_eq!(mailbox.receive(), Some(2));
    assert_eq!(mailbox.receive(), Some(3));
    assert_eq!(mailbox.receive(), None);
}

#[test]
fn full_mailbox_drops_silently() {
    let mut mailbox: Mailbox<u32> = Mailbox::with_capacity(2);
    assert!(mailbox.notify(1));
    assert!(mailbox.notify(2));
    // The bound is reached: this message is dropped, the sender not blocked.
    assert!(!mailbox.notify(3));
    assert_eq!(mailbox.len(), 2);
    assert_eq!(mailbox.receive(), Some(1));
    // Room again: accepted, behind what was already queued.
    assert!(mailbox.notify(4));
    assert_eq!(mailbox.receive(), Some(2));
    assert_eq!(mailbox.receive(), Some(4));
}

#[test]
fn request_receives_exactly_one_reply() {
    let mut reply = ReplyChannel::empty();
    rng_serve(RngCommand::GetU32, &mut reply, 42);
    // The requester observes exactly the one reply.
    assert_eq!(reply.take(), 42);
    // The channel is empty again: a second request gets its own fresh reply.
    rng_serve(RngCommand::GetU32, &mut reply, 7);
    assert_eq!(reply.take(), 7);
}

#[test]
fn task_senders_start_empty() {
    let mut senders = TaskSenders::with_capacity(8);
    assert_eq!(senders.sound.len(), 0);
    assert_eq!(senders.lights.len(), 0);
    assert!(senders.sound.notify(SoundCommand::Beep));
    assert_eq!(senders.sound.receive(), Some(SoundCommand::Beep));
}
