use web_worker::channel::Direction;
use web_worker::channel::MessageChannel;
use web_worker::channel::Pipe;
use web_worker::channel::RecvPoll;
use web_worker::channel::SendPoll;

#[test]
fn messages_are_received_in_send_order() {
    let mut p: Pipe<Vec<u8>> = Pipe::new(8);
    for m in [b"one".to_vec(), b"two".to_vec(), b"three".to_vec()] {
        assert!(matches!(p.poll_send(m), SendPoll::Sent));
    }
    let mut out = Vec::new();
    while let RecvPoll::Message(m) = p.poll_recv() {
        out.push(m);
    }
    assert_eq!(out, vec![b"one".to_vec(), b"two".to_vec(), b"three".to_vec()]);
}

#[test]
fn send_at_capacity_suspends_and_close_resolves_it() {
    let mut p: Pipe<u32> = Pipe::new(1);
    assert!(matches!(p.poll_send(1), SendPoll::Sent));

    // The queue is at capacity: the send suspends and hands the message back.
    match p.poll_send(2) {
        SendPoll::Pending(back) => assert_eq!(back, 2),
        _ => panic!("a send into a full direction must suspend"),
    }

    // Closing while the send is suspended resolves the retry to Closed,
    // within one poll, instead of hanging.
    p.close();
    match p.poll_send(2) {
        SendPoll::Closed(back) => assert_eq!(back, 2),
        _ => panic!("a send after close must resolve to Closed"),
    }
}

#[test]
fn receive_on_empty_suspends_and_close_resolves_it() {
    let mut p: Pipe<u32> = Pipe::new(1);
    // Open and empty: the receive suspends.
    assert!(matches!(p.poll_recv(), RecvPoll::Pending));
    // Closing resolves the suspended receive to end-of-channel.
    p.close();
    assert!(matches!(p.poll_recv(), RecvPoll::Closed));
}

#[test]
fn close_keeps_queued_messages_drainable() {
    let mut p: Pipe<u32> = Pipe::new(4);
    assert!(matches!(p.poll_send(7), SendPoll::Sent));
    assert!(matches!(p.poll_send(8), SendPoll::Sent));
    p.close();
    // Close is idempotent.
    p.close();
    assert!(matches!(p.poll_recv(), RecvPoll::Message(7)));
    assert!(matches!(p.poll_recv(), RecvPoll::Message(8)));
    // None is observed exactly once closed and drained.
    assert!(matches!(p.poll_recv(), RecvPoll::Closed));
    assert!(matches!(p.poll_recv(), RecvPoll::Closed));
}

#[test]
fn directions_are_independent() {
    let mut c = MessageChannel::new(2);
    assert!(matches!(c.send(Direction::ToWorker, b"in".to_vec()), SendPoll::Sent));
    assert!(matches!(c.send(Direction::FromWorker, b"out".to_vec()), SendPoll::Sent));

    // Closing the to-worker direction leaves the from-worker direction open.
    c.close(Direction::ToWorker);
    assert!(matches!(c.send(Direction::ToWorker, b"x".to_vec()), SendPoll::Closed(_)));
    assert!(matches!(c.send(Direction::FromWorker, b"y".to_vec()), SendPoll::Sent));

    match c.receive(Direction::ToWorker) {
        RecvPoll::Message(m) => assert_eq!(&m[..], b"in"),
        _ => panic!("queued inbound message should drain after close"),
    }
    assert!(matches!(c.receive(Direction::ToWorker), RecvPoll::Closed));
    match c.receive(Direction::FromWorker) {
        RecvPoll::Message(m) => assert_eq!(&m[..], b"out"),
        _ => panic!("outbound direction should still deliver"),
    }
}
