use bloxide::messaging::{Channels, Handle, Message, SendError, DEFAULT_CHANNEL_SIZE};

#[test]
fn try_send_to_full_channel_reports_full() {
    let mut chans: Channels<u32> = Channels::new();
    let (h, rx) = Handle::create_channel_with_size(&mut chans, 5, 2);
    assert_eq!(h.try_send(&mut chans, Message::new(1, 5, 10)), Ok(()));
    assert_eq!(h.try_send(&mut chans, Message::new(1, 5, 11)), Ok(()));
    assert_eq!(h.try_send(&mut chans, Message::new(1, 5, 12)), Err(SendError::Full));
    assert_eq!(chans.queued(rx.slot), 2);
}

#[test]
fn messages_from_one_sender_arrive_in_order() {
    let mut chans: Channels<u32> = Channels::new();
    let (h, rx) = chans.create_channel_with_size(3, DEFAULT_CHANNEL_SIZE);
    let (other, _orx) = chans.create_channel_with_size(4, DEFAULT_CHANNEL_SIZE);
    assert!(h.try_send(&mut chans, Message::new(7, 3, 1)).is_ok());
    assert!(other.try_send(&mut chans, Message::new(7, 4, 99)).is_ok());
    assert!(h.try_send(&mut chans, Message::new(7, 3, 2)).is_ok());
    assert!(h.try_send(&mut chans, Message::new(7, 3, 3)).is_ok());
    let got: Vec<u32> = (0..3).map(|_| chans.try_receive(&rx).unwrap().payload).collect();
    assert_eq!(got, vec![1, 2, 3]);
    assert!(chans.try_receive(&rx).is_none());
}

#[test]
fn room_frees_after_receive() {
    let mut chans: Channels<u32> = Channels::new();
    let (h, rx) = chans.create_channel_with_size(1, 1);
    assert_eq!(chans.try_send(&h, Message::new(0, 1, 5)), Ok(()));
    assert_eq!(chans.try_send(&h, Message::new(0, 1, 6)), Err(SendError::Full));
    let m = chans.try_receive(&rx).unwrap();
    assert_eq!((m.source_id(), m.dest_id(), m.payload), (0, 1, 5));
    assert_eq!(chans.try_send(&h, Message::new(0, 1, 6)), Ok(()));
}

#[test]
fn send_after_receiver_dropped_reports_closed() {
    let mut chans: Channels<u32> = Channels::new();
    let (h, rx) = chans.create_channel_with_size(2, 4);
    chans.close(rx);
    assert_eq!(h.try_send(&mut chans, Message::new(0, 2, 1)), Err(SendError::Closed));
}

#[test]
fn send_to_unknown_channel_reports_closed() {
    let mut chans: Channels<u32> = Channels::new();
    let h = Handle { id: 9, slot: 3 };
    assert_eq!(h.try_send(&mut chans, Message::new(0, 9, 1)), Err(SendError::Closed));
    assert_eq!(chans.len(), 0);
}

#[test]
fn zero_capacity_channel_is_always_full() {
    let mut chans: Channels<u32> = Channels::new();
    let (h, _rx) = chans.create_channel_with_size(2, 0);
    assert_eq!(h.try_send(&mut chans, Message::new(0, 2, 1)), Err(SendError::Full));
}

#[test]
fn handles_carry_their_id_and_copies_share_the_queue() {
    let mut chans: Channels<u32> = Channels::new();
    let (h, rx) = chans.create_channel_with_size(42, 2);
    let copy = h;
    assert_eq!(h.id(), 42);
    assert_eq!(copy.id(), 42);
    assert!(h.try_send(&mut chans, Message::new(0, 42, 1)).is_ok());
    assert!(copy.try_send(&mut chans, Message::new(0, 42, 2)).is_ok());
    assert_eq!(copy.try_send(&mut chans, Message::new(0, 42, 3)), Err(SendError::Full));
    assert_eq!(chans.queued(rx.slot), 2);
}

#[test]
fn closed_channel_keeps_waiting_messages() {
    let mut chans: Channels<u32> = Channels::new();
    let (h, rx) = chans.create_channel_with_size(2, 4);
    assert!(chans.is_open(h.slot));
    assert!(h.try_send(&mut chans, Message::new(0, 2, 1)).is_ok());
    chans.close_slot(h.slot);
    assert!(!chans.is_open(h.slot));
    assert!(!chans.is_open(99));
    assert_eq!(h.try_send(&mut chans, Message::new(0, 2, 2)), Err(SendError::Closed));
    assert_eq!(chans.try_receive(&rx).map(|m| m.payload), Some(1));
    assert!(chans.try_receive(&rx).is_none());
}
