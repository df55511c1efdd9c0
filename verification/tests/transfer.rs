use quic_transfer::transfer::{ReceiveAction, Receiver, SendAction, Sender};
use quic_transfer::MTU_SIZE;

#[test]
fn client_sender_writes_each_chunk_then_finishes_the_stream() {
    let mut sender = Sender::for_client(3200);
    assert_eq!(sender.on_read(MTU_SIZE), SendAction::Write { len: 1500, pause_micros: 100 });
    assert_eq!(sender.transferred(), 1500);
    assert_eq!(sender.on_read(1500), SendAction::Write { len: 1500, pause_micros: 100 });
    assert_eq!(sender.on_read(200), SendAction::Write { len: 200, pause_micros: 100 });
    assert_eq!(sender.transferred(), 3200);
    assert_eq!(sender.file_len(), 3200);
    assert!(!sender.is_finished());
    assert_eq!(sender.on_read(0), SendAction::Finish { close_stream: true });
    assert!(sender.is_finished());
    assert_eq!(sender.transferred(), 3200);
}

#[test]
fn peer_sender_does_not_pause_or_close_the_stream() {
    let mut sender = Sender::for_peer(10);
    assert_eq!(sender.on_read(10), SendAction::Write { len: 10, pause_micros: 0 });
    assert_eq!(sender.on_read(0), SendAction::Finish { close_stream: false });
    assert_eq!(sender.transferred(), 10);
}

#[test]
fn sender_of_empty_file_finishes_at_once() {
    let mut sender = Sender::for_client(0);
    assert_eq!(sender.on_read(0), SendAction::Finish { close_stream: true });
    assert_eq!(sender.transferred(), 0);
}

#[test]
fn sender_ignores_reads_after_end_of_file() {
    let mut sender = Sender::new(5, 7, true);
    assert_eq!(sender.on_read(5), SendAction::Write { len: 5, pause_micros: 7 });
    assert_eq!(sender.on_read(0), SendAction::Finish { close_stream: true });
    assert_eq!(sender.on_read(100), SendAction::Finish { close_stream: true });
    assert_eq!(sender.transferred(), 5);
}

#[test]
fn server_receiver_counts_chunks_until_stream_end() {
    let mut receiver = Receiver::for_server();
    assert_eq!(receiver.on_read(Some(1500)), ReceiveAction::Continue);
    assert_eq!(receiver.on_read(Some(0)), ReceiveAction::Continue);
    assert_eq!(receiver.on_read(Some(34)), ReceiveAction::Continue);
    assert!(!receiver.is_done());
    assert_eq!(receiver.on_read(None), ReceiveAction::Stop);
    assert!(receiver.is_done());
    assert_eq!(receiver.received(), 1534);
}

#[test]
fn peer_receiver_stops_at_empty_read() {
    let mut receiver = Receiver::for_peer();
    assert_eq!(receiver.on_read(Some(1500)), ReceiveAction::Continue);
    assert_eq!(receiver.on_read(Some(12)), ReceiveAction::Continue);
    assert_eq!(receiver.on_read(Some(0)), ReceiveAction::Stop);
    assert_eq!(receiver.received(), 1512);
    assert_eq!(receiver.on_read(Some(40)), ReceiveAction::Stop);
    assert_eq!(receiver.received(), 1512);
}

#[test]
fn receiver_counts_what_the_sender_wrote() {
    for (mut sender, mut receiver, end) in [
        (Sender::for_client(2200), Receiver::for_server(), None),
        (Sender::for_peer(2200), Receiver::for_peer(), Some(0)),
    ] {
        for read in [1500usize, 700, 0, 12] {
            if let SendAction::Write { len, .. } = sender.on_read(read) {
                assert_eq!(receiver.on_read(Some(len)), ReceiveAction::Continue);
            }
        }
        assert_eq!(receiver.on_read(end), ReceiveAction::Stop);
        assert_eq!(receiver.received(), sender.transferred());
        assert_eq!(sender.transferred(), 2200);
    }
}
