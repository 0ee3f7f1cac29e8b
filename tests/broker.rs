use pubsub::engine::publish_all;
use pubsub::{
    check_attach, parse_uuids, AttachError, BusEvent, Channel, ClientRole, CreateError,
    EngineState, ForwardStep, Frame, PublisherStep, Registry, Session,
};
use tokio::sync::broadcast::error::TryRecvError;

const ID_A: &str = "67e55044-10b1-426f-9247-bb680e5fe0c8";
const ID_B: &str = "a1a2a3a4-b1b2-c1c2-d1d2-d3d4d5d6d7d8";

fn text(s: &str) -> String {
    s.to_string()
}

#[test]
fn role_names_in_any_case() {
    assert_eq!(ClientRole::parse("publisher").unwrap(), ClientRole::Publisher);
    assert_eq!(ClientRole::parse("Publisher").unwrap(), ClientRole::Publisher);
    assert_eq!(ClientRole::parse("PUBLISHER").unwrap(), ClientRole::Publisher);
    assert_eq!(ClientRole::parse("subscriber").unwrap(), ClientRole::Subscriber);
    assert_eq!(ClientRole::parse("SubScriber").unwrap(), ClientRole::Subscriber);
    let parsed: ClientRole = "Subscriber".parse().unwrap();
    assert_eq!(parsed, ClientRole::Subscriber);
}

#[test]
fn unknown_role_names_are_refused() {
    let err = ClientRole::parse("foo").unwrap_err();
    assert_eq!(err.given, "foo");
    assert!(ClientRole::parse("").is_err());
    assert!(ClientRole::parse("publishers").is_err());
    assert!(ClientRole::parse(" publisher").is_err());
}

#[test]
fn id_list_is_read_in_order() {
    let list = format!("{},{}", ID_A, ID_B);
    let ids = parse_uuids(&list).unwrap();
    assert_eq!(
        ids,
        vec![
            0x67e5504410b1426f9247bb680e5fe0c8u128,
            0xa1a2a3a4b1b2c1c2d1d2d3d4d5d6d7d8u128
        ]
    );
    assert_eq!(parse_uuids(ID_A).unwrap(), vec![0x67e5504410b1426f9247bb680e5fe0c8u128]);
}

#[test]
fn id_list_with_a_bad_piece_is_refused() {
    assert_eq!(parse_uuids("A,B"), None);
    assert_eq!(parse_uuids(""), None);
    assert_eq!(parse_uuids(&format!("{},", ID_A)), None);
    assert_eq!(parse_uuids(&format!("{},,{}", ID_A, ID_B)), None);
    assert_eq!(parse_uuids(&format!("{},nope", ID_A)), None);
}

#[test]
fn attach_with_unknown_role_is_refused() {
    assert_eq!(check_attach(Some("foo"), Some("A")).unwrap_err(), AttachError::InvalidRole);
}

#[test]
fn attach_errors_in_order() {
    assert_eq!(check_attach(None, Some(ID_A)).unwrap_err(), AttachError::MissingRole);
    assert_eq!(check_attach(Some("foo"), None).unwrap_err(), AttachError::InvalidRole);
    assert_eq!(check_attach(Some("publisher"), None).unwrap_err(), AttachError::MissingChannels);
    assert_eq!(
        check_attach(Some("subscriber"), Some("A,B")).unwrap_err(),
        AttachError::UnparsableChannels
    );
}

#[test]
fn attach_with_role_and_ids() {
    let list = format!("{},{}", ID_B, ID_A);
    let (role, ids) = check_attach(Some("Publisher"), Some(&list)).unwrap();
    assert_eq!(role, ClientRole::Publisher);
    assert_eq!(
        ids,
        vec![
            0xa1a2a3a4b1b2c1c2d1d2d3d4d5d6d7d8u128,
            0x67e5504410b1426f9247bb680e5fe0c8u128
        ]
    );
}

#[test]
fn created_channel_is_listed_once() {
    let mut reg = Registry::new();
    let id = reg.create_channel(Some(text("foo")), Some(10)).unwrap();
    let list = reg.list_channels();
    assert_eq!(list.len(), 1);
    assert_eq!(list[0].id, id);
    assert_eq!(list[0].name, "foo");
    assert_eq!(list[0].capacity, 10);
    let other = reg.create_channel(Some(text("bar")), None).unwrap();
    assert_ne!(other, id);
    let list = reg.list_channels();
    assert_eq!(list.len(), 2);
    assert_eq!(list.iter().filter(|c| c.id == id).count(), 1);
}

#[test]
fn capacity_defaults_when_absent_or_zero() {
    let mut reg = Registry::new();
    reg.create_channel(Some(text("a")), None).unwrap();
    reg.create_channel(Some(text("b")), Some(0)).unwrap();
    reg.create_channel(Some(text("c")), Some(1)).unwrap();
    let caps: Vec<usize> = reg.list_channels().iter().map(|c| c.capacity).collect();
    assert_eq!(caps, vec![32, 32, 1]);
}

#[test]
fn channel_without_name_is_refused() {
    let mut reg = Registry::new();
    assert_eq!(reg.create_channel(None, Some(10)), Err(CreateError::EmptyName));
    assert_eq!(reg.create_channel(Some(text("")), Some(10)), Err(CreateError::EmptyName));
    assert!(reg.list_channels().is_empty());
}

#[test]
fn oversized_capacity_is_refused() {
    let mut reg = Registry::new();
    assert_eq!(
        reg.create_channel(Some(text("big")), Some(usize::MAX)),
        Err(CreateError::CapacityTooLarge)
    );
    assert!(reg.list_channels().is_empty());
}

#[test]
fn lookup_and_resolve_skip_unknown_ids() {
    let mut reg = Registry::new();
    let a = reg.create_channel(Some(text("A")), Some(4)).unwrap();
    let b = reg.create_channel(Some(text("B")), Some(8)).unwrap();
    assert_eq!(reg.lookup(a).unwrap().get_name(), "A");
    assert_eq!(reg.lookup(b).unwrap().get_size(), 8);
    let unknown = a ^ b ^ 1;
    assert!(reg.lookup(unknown).is_none());
    let found = reg.resolve(&vec![b, unknown, a]);
    let ids: Vec<u128> = found.iter().map(|c| c.get_id()).collect();
    assert_eq!(ids, vec![b, a]);
}

#[test]
fn subscriber_sees_messages_after_attach_in_order() {
    let mut chan = Channel::new(text("A"), 4);
    let mut early = chan.get_rx();
    assert_eq!(chan.publish(text("m0")), Some(1));
    assert_eq!(early.try_recv().unwrap(), "m0");
    let mut rx = chan.get_rx();
    for m in ["m1", "m2", "m3", "m4"] {
        assert_eq!(chan.publish(text(m)), Some(2));
    }
    for m in ["m1", "m2", "m3", "m4"] {
        assert_eq!(rx.try_recv().unwrap(), m);
    }
    assert_eq!(rx.try_recv(), Err(TryRecvError::Empty));
    for m in ["m1", "m2", "m3", "m4"] {
        assert_eq!(early.try_recv().unwrap(), m);
    }
}

#[test]
fn lagging_subscriber_is_told_of_the_overrun() {
    let mut chan = Channel::new(text("A"), 2);
    let mut rx = chan.get_rx();
    for m in ["m1", "m2", "m3", "m4"] {
        chan.publish(text(m));
    }
    assert_eq!(rx.try_recv(), Err(TryRecvError::Lagged(2)));
    assert_eq!(rx.try_recv().unwrap(), "m3");
    assert_eq!(rx.try_recv().unwrap(), "m4");
}

#[test]
fn publish_without_subscribers_reports_and_changes_nothing() {
    let mut reg = Registry::new();
    let a = reg.create_channel(Some(text("A")), Some(4)).unwrap();
    let mut chan = reg.lookup(a).unwrap().share();
    assert_eq!(chan.publish(text("lost")), None);
    let mut rx = chan.get_rx();
    assert_eq!(chan.publish(text("kept")), Some(1));
    assert_eq!(rx.try_recv().unwrap(), "kept");
    let list = reg.list_channels();
    assert_eq!(list.len(), 1);
    assert_eq!((list[0].id, list[0].name.as_str(), list[0].capacity), (a, "A", 4));
}

#[test]
fn publisher_fans_out_to_every_channel() {
    let a = Channel::new(text("A"), 8);
    let b = Channel::new(text("B"), 8);
    let mut ra = a.get_rx();
    let mut rb = b.get_rx();
    let outcome = publish_all(&mut vec![a.share(), b.share()], &text("hello"));
    assert_eq!(outcome, vec![Some(1), Some(1)]);
    assert_eq!(ra.try_recv().unwrap(), "hello");
    assert_eq!(rb.try_recv().unwrap(), "hello");
    assert_eq!(ra.try_recv(), Err(TryRecvError::Empty));
    assert_eq!(rb.try_recv(), Err(TryRecvError::Empty));
}

#[test]
fn failure_on_one_channel_does_not_block_another() {
    let a = Channel::new(text("A"), 8);
    let b = Channel::new(text("B"), 8);
    let mut ra = a.get_rx();
    let outcome = publish_all(&mut vec![b.share(), a.share()], &text("hello"));
    assert_eq!(outcome, vec![None, Some(1)]);
    assert_eq!(ra.try_recv().unwrap(), "hello");
    assert_eq!(ra.try_recv(), Err(TryRecvError::Empty));
}

#[test]
fn subscriber_on_two_channels_gets_each_message_once() {
    let mut a = Channel::new(text("A"), 8);
    let mut b = Channel::new(text("B"), 8);
    let session = Session::new(ClientRole::Subscriber);
    let mut ra = a.get_rx();
    let mut rb = b.get_rx();
    assert_eq!(a.publish(text("x")), Some(1));
    assert_eq!(b.publish(text("y")), Some(1));
    let mut sent: Vec<String> = Vec::new();
    for rx in [&mut ra, &mut rb] {
        while let Ok(m) = rx.try_recv() {
            match session.on_bus_event(BusEvent::Message(m)) {
                ForwardStep::Send(t) => sent.push(t),
                other => panic!("unexpected step {:?}", other),
            }
        }
    }
    assert_eq!(sent, vec![text("x"), text("y")]);
}

#[test]
fn dropping_one_subscriber_leaves_the_others() {
    let mut a = Channel::new(text("A"), 8);
    let mut b = Channel::new(text("B"), 8);
    let gone = a.get_rx();
    let mut stays = a.get_rx();
    let mut on_b = b.get_rx();
    drop(gone);
    assert_eq!(a.publish(text("still")), Some(1));
    assert_eq!(b.publish(text("there")), Some(1));
    assert_eq!(stays.try_recv().unwrap(), "still");
    assert_eq!(on_b.try_recv().unwrap(), "there");
}

#[test]
fn publisher_session_steps() {
    let mut s = Session::new(ClientRole::Publisher);
    assert_eq!(s.get_state(), EngineState::Attached);
    s.start();
    assert_eq!(s.get_state(), EngineState::Running);
    match s.on_frame(Frame::Text(text("hi"))) {
        PublisherStep::Publish(t) => assert_eq!(t, "hi"),
        other => panic!("unexpected step {:?}", other),
    }
    assert!(matches!(s.on_frame(Frame::Other), PublisherStep::Ignore));
    assert_eq!(s.get_state(), EngineState::Running);
    assert!(matches!(s.on_frame(Frame::Close), PublisherStep::Stop));
    assert!(s.is_terminated());
    let mut t = Session::new(ClientRole::Publisher);
    t.start();
    assert!(matches!(t.on_frame(Frame::Broken), PublisherStep::Stop));
    assert_eq!(t.get_state(), EngineState::Terminated);
    assert_eq!(t.get_role(), ClientRole::Publisher);
}

#[test]
fn subscriber_session_steps() {
    let mut s = Session::new(ClientRole::Subscriber);
    s.start();
    assert!(matches!(s.on_bus_event(BusEvent::Lagged(3)), ForwardStep::Overrun(3)));
    assert!(matches!(s.on_bus_event(BusEvent::Closed), ForwardStep::Stop));
    s.on_send_result(true);
    assert_eq!(s.get_state(), EngineState::Running);
    s.on_send_result(false);
    assert_eq!(s.get_state(), EngineState::Terminated);
}

#[test]
fn sessions_get_distinct_ids() {
    let a = Session::new(ClientRole::Subscriber);
    let b = Session::new(ClientRole::Subscriber);
    assert_ne!(a.get_id(), b.get_id());
}

#[test]
fn insert_refuses_a_taken_id() {
    let mut reg = Registry::new();
    let chan = Channel::new(text("A"), 4);
    let again = chan.share();
    let other = Channel::new(text("B"), 4);
    assert!(reg.insert(chan));
    assert!(!reg.insert(again));
    assert!(reg.insert(other));
    let names: Vec<String> = reg.list_channels().into_iter().map(|c| c.name).collect();
    assert_eq!(names, vec![text("A"), text("B")]);
}

#[test]
fn an_id_listed_twice_binds_the_channel_once() {
    let mut reg = Registry::new();
    let a = reg.create_channel(Some(text("A")), Some(4)).unwrap();
    let b = reg.create_channel(Some(text("B")), Some(4)).unwrap();
    let mut found = reg.resolve(&vec![a, b, a, b, a]);
    let ids: Vec<u128> = found.iter().map(|c| c.get_id()).collect();
    assert_eq!(ids, vec![a, b]);
    let mut ra = found[0].get_rx();
    let outcome = publish_all(&mut found, &text("once"));
    assert_eq!(outcome, vec![Some(1), None]);
    assert_eq!(ra.try_recv().unwrap(), "once");
    assert_eq!(ra.try_recv(), Err(TryRecvError::Empty));
}

#[test]
fn free_id_is_the_smallest_untaken() {
    let mut reg = Registry::new();
    assert_eq!(reg.free_id(), 0);
    assert!(reg.insert(Channel::with_id(0, text("zero"), 4)));
    assert!(reg.insert(Channel::with_id(2, text("two"), 4)));
    assert_eq!(reg.free_id(), 1);
    assert!(reg.insert(Channel::with_id(1, text("one"), 4)));
    assert_eq!(reg.free_id(), 3);
    let id = reg.create_channel(Some(text("next")), Some(4)).unwrap();
    assert!(id != 0 && id != 1 && id != 2);
    assert_eq!(reg.list_channels().len(), 4);
}

#[test]
fn channel_with_chosen_id() {
    let c = Channel::with_id(7, text("seven"), 3);
    assert_eq!((c.get_id(), c.get_name(), c.get_size()), (7, text("seven"), 3));
}
