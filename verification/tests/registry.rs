use socket_core::action::SocketAction;
use socket_core::handle::SocketHandle;
use socket_core::handle::SocketKind;
use socket_core::objects::ScriptObject;
use socket_core::objects::ScriptObjects;
use socket_core::sockets::Sockets;

fn read_buffer(objects: &ScriptObjects, id: usize) -> Vec<u8> {
    match &objects.objects[id] {
        ScriptObject::XmlSocket(socket) => socket.read_buffer.clone(),
        ScriptObject::Socket(socket) => socket.read_buffer.clone(),
        ScriptObject::Plain => panic!("object {} has no read buffer", id),
    }
}

fn write_buffer(objects: &ScriptObjects, id: usize) -> Vec<u8> {
    match &objects.objects[id] {
        ScriptObject::Socket(socket) => socket.write_buffer.clone(),
        _ => panic!("object {} has no write buffer", id),
    }
}

fn slot(objects: &ScriptObjects, id: usize) -> Option<SocketHandle> {
    match &objects.objects[id] {
        ScriptObject::XmlSocket(socket) => socket.handle,
        ScriptObject::Socket(socket) => socket.handle,
        ScriptObject::Plain => None,
    }
}

fn fill(objects: &mut ScriptObjects, id: usize, read: &[u8], write: &[u8]) {
    match &mut objects.objects[id] {
        ScriptObject::XmlSocket(socket) => socket.read_buffer.extend_from_slice(read),
        ScriptObject::Socket(socket) => {
            socket.read_buffer.extend_from_slice(read);
            socket.write_buffer.extend_from_slice(write);
        }
        ScriptObject::Plain => panic!("object {} has no buffers", id),
    }
}

#[test]
fn empty_registry_has_no_connections() {
    let sockets = Sockets::empty();
    assert_eq!(sockets.generation(), 0);
    assert!(!sockets.is_connected(SocketHandle { index: 0, generation: 0 }));
    assert_eq!(sockets.target(SocketHandle { index: 0, generation: 0 }), None);
}

#[test]
fn connect_avm2_registers_and_fills_the_request() {
    let mut sockets = Sockets::empty();
    let mut objects = ScriptObjects::new();
    let target = objects.add_socket(20000);
    let request = sockets
        .connect_avm2(&mut objects, target, String::from("example.org"), 8080)
        .expect("a socket object is accepted");
    assert_eq!(request.host, "example.org");
    assert_eq!(request.port, 8080);
    assert_eq!(request.timeout_ms, 20000);
    assert_eq!(request.handle.generation, 0);
    assert!(sockets.is_connected(request.handle));
    assert_eq!(sockets.target(request.handle), Some(SocketKind::Avm2(target)));
    assert_eq!(slot(&objects, target), Some(request.handle));
    assert_eq!(sockets.generation(), 0);
}

#[test]
fn connect_avm1_registers_and_fills_the_request() {
    let mut sockets = Sockets::empty();
    let mut objects = ScriptObjects::new();
    let target = objects.add_xml_socket(2000);
    let request = sockets
        .connect_avm1(&mut objects, target, String::from("localhost"), 9)
        .expect("an object with the socket capability is accepted");
    assert_eq!(request.host, "localhost");
    assert_eq!(request.port, 9);
    assert_eq!(request.timeout_ms, 2000);
    assert!(sockets.is_connected(request.handle));
    assert_eq!(sockets.target(request.handle), Some(SocketKind::Avm1(target)));
    assert_eq!(slot(&objects, target), Some(request.handle));
}

#[test]
fn connect_avm1_rejects_an_object_without_the_capability() {
    let mut sockets = Sockets::empty();
    let mut objects = ScriptObjects::new();
    let plain = objects.add_object();
    let modern = objects.add_socket(1);
    assert!(sockets.connect_avm1(&mut objects, plain, String::from("h"), 1).is_none());
    assert!(sockets.connect_avm1(&mut objects, modern, String::from("h"), 1).is_none());
    assert!(sockets.connect_avm1(&mut objects, 17, String::from("h"), 1).is_none());
    assert!(!sockets.is_connected(SocketHandle { index: 0, generation: 0 }));
    assert_eq!(slot(&objects, modern), None);
    assert_eq!(sockets.generation(), 0);
}

#[test]
fn connect_avm2_rejects_what_is_not_a_socket_object() {
    let mut sockets = Sockets::empty();
    let mut objects = ScriptObjects::new();
    let legacy = objects.add_xml_socket(5);
    assert!(sockets.connect_avm2(&mut objects, legacy, String::from("h"), 1).is_none());
    assert!(sockets.connect_avm2(&mut objects, 3, String::from("h"), 1).is_none());
    assert_eq!(slot(&objects, legacy), None);
    assert!(!sockets.is_connected(SocketHandle { index: 0, generation: 0 }));
}

#[test]
fn live_handles_are_distinct() {
    let mut sockets = Sockets::empty();
    let mut objects = ScriptObjects::new();
    let mut handles = Vec::new();
    for _ in 0..10 {
        let target = objects.add_socket(1);
        let request = sockets.connect_avm2(&mut objects, target, String::from("h"), 1).unwrap();
        handles.push(request.handle);
    }
    for (i, a) in handles.iter().enumerate() {
        assert!(sockets.is_connected(*a));
        for b in handles.iter().skip(i + 1) {
            assert_ne!(a, b);
        }
    }
}

#[test]
fn removed_handle_stays_invalid_when_its_slot_is_reused() {
    let mut sockets = Sockets::empty();
    let mut objects = ScriptObjects::new();
    let first = objects.add_socket(1);
    let second = objects.add_socket(1);
    let old = sockets.connect_avm2(&mut objects, first, String::from("h"), 1).unwrap().handle;
    sockets.close(&mut objects, old);
    assert!(!sockets.is_connected(old));
    assert_eq!(sockets.generation(), 1);
    let new = sockets.connect_avm2(&mut objects, second, String::from("h"), 1).unwrap().handle;
    assert_eq!(new.index, old.index);
    assert_eq!(new.generation, 1);
    assert_ne!(new, old);
    assert!(sockets.is_connected(new));
    assert!(!sockets.is_connected(old));
    assert_eq!(sockets.target(old), None);
    // Closing the old handle again must not touch the new tenant.
    sockets.close(&mut objects, old);
    assert!(sockets.is_connected(new));
    assert_eq!(sockets.generation(), 1);
}

#[test]
fn reconnecting_displaces_the_previous_handle() {
    let mut sockets = Sockets::empty();
    let mut objects = ScriptObjects::new();
    let target = objects.add_socket(1);
    let first = sockets.connect_avm2(&mut objects, target, String::from("a"), 1).unwrap().handle;
    fill(&mut objects, target, b"unread", b"unsent");
    let second = sockets.connect_avm2(&mut objects, target, String::from("b"), 2).unwrap().handle;
    assert_ne!(first, second);
    assert!(!sockets.is_connected(first));
    assert!(sockets.is_connected(second));
    assert_eq!(slot(&objects, target), Some(second));
    assert_eq!(read_buffer(&objects, target), Vec::<u8>::new());
    assert_eq!(write_buffer(&objects, target), Vec::<u8>::new());
    assert_eq!(sockets.generation(), 1);
}

#[test]
fn reconnecting_a_legacy_object_displaces_the_previous_handle() {
    let mut sockets = Sockets::empty();
    let mut objects = ScriptObjects::new();
    let target = objects.add_xml_socket(1);
    let first = sockets.connect_avm1(&mut objects, target, String::from("a"), 1).unwrap().handle;
    fill(&mut objects, target, b"partial", b"");
    let second = sockets.connect_avm1(&mut objects, target, String::from("b"), 2).unwrap().handle;
    assert_ne!(first, second);
    assert!(!sockets.is_connected(first));
    assert!(sockets.is_connected(second));
    assert_eq!(slot(&objects, target), Some(second));
    assert_eq!(read_buffer(&objects, target), Vec::<u8>::new());
}

#[test]
fn reconnecting_after_close_leaves_the_new_connection_alone() {
    let mut sockets = Sockets::empty();
    let mut objects = ScriptObjects::new();
    let target = objects.add_socket(1);
    let first = sockets.connect_avm2(&mut objects, target, String::from("a"), 1).unwrap().handle;
    sockets.close(&mut objects, first);
    // The slot still names the closed handle, whose arena slot is free again.
    assert_eq!(slot(&objects, target), Some(first));
    let second = sockets.connect_avm2(&mut objects, target, String::from("a"), 1).unwrap().handle;
    assert_eq!(second.index, first.index);
    assert!(sockets.is_connected(second));
    assert!(!sockets.is_connected(first));
    assert_eq!(sockets.generation(), 1);
}

#[test]
fn close_removes_the_entry_and_clears_the_buffers() {
    let mut sockets = Sockets::empty();
    let mut objects = ScriptObjects::new();
    let modern = objects.add_socket(1);
    let legacy = objects.add_xml_socket(1);
    let a = sockets.connect_avm2(&mut objects, modern, String::from("a"), 1).unwrap().handle;
    let b = sockets.connect_avm1(&mut objects, legacy, String::from("b"), 1).unwrap().handle;
    fill(&mut objects, modern, b"in", b"out");
    fill(&mut objects, legacy, b"half a message", b"");
    sockets.close(&mut objects, a);
    assert!(!sockets.is_connected(a));
    assert!(sockets.is_connected(b));
    assert_eq!(read_buffer(&objects, modern), Vec::<u8>::new());
    assert_eq!(write_buffer(&objects, modern), Vec::<u8>::new());
    assert_eq!(read_buffer(&objects, legacy), b"half a message".to_vec());
    sockets.close(&mut objects, b);
    assert!(!sockets.is_connected(b));
    assert_eq!(read_buffer(&objects, legacy), Vec::<u8>::new());
    assert_eq!(sockets.generation(), 2);
}

#[test]
fn close_drops_the_outbound_sender() {
    let mut sockets = Sockets::empty();
    let mut objects = ScriptObjects::new();
    let target = objects.add_socket(1);
    let request = sockets.connect_avm2(&mut objects, target, String::from("a"), 1).unwrap();
    assert!(!request.receiver.is_closed());
    sockets.close(&mut objects, request.handle);
    assert!(request.receiver.is_closed());
}

#[test]
fn closing_twice_is_harmless() {
    let mut sockets = Sockets::empty();
    let mut objects = ScriptObjects::new();
    let target = objects.add_socket(1);
    let other = objects.add_socket(1);
    let handle = sockets.connect_avm2(&mut objects, target, String::from("a"), 1).unwrap().handle;
    let kept = sockets.connect_avm2(&mut objects, other, String::from("a"), 1).unwrap().handle;
    sockets.close(&mut objects, handle);
    fill(&mut objects, target, b"later", b"later");
    sockets.close(&mut objects, handle);
    assert!(!sockets.is_connected(handle));
    assert!(sockets.is_connected(kept));
    assert_eq!(sockets.generation(), 1);
    // The second close found no entry, so it cleared nothing.
    assert_eq!(read_buffer(&objects, target), b"later".to_vec());
    assert_eq!(write_buffer(&objects, target), b"later".to_vec());
}

#[test]
fn send_reaches_the_outbound_channel_in_order() {
    let mut sockets = Sockets::empty();
    let mut objects = ScriptObjects::new();
    let target = objects.add_socket(1);
    let request = sockets.connect_avm2(&mut objects, target, String::from("a"), 1).unwrap();
    sockets.send(request.handle, vec![1, 2, 3]);
    sockets.send(request.handle, vec![]);
    sockets.send(request.handle, vec![4]);
    assert_eq!(request.receiver.try_recv(), Ok(vec![1, 2, 3]));
    assert_eq!(request.receiver.try_recv(), Ok(vec![]));
    assert_eq!(request.receiver.try_recv(), Ok(vec![4]));
    assert!(request.receiver.try_recv().is_err());
    assert!(sockets.is_connected(request.handle));
}

#[test]
fn send_goes_to_the_connection_of_its_handle_only() {
    let mut sockets = Sockets::empty();
    let mut objects = ScriptObjects::new();
    let a = objects.add_socket(1);
    let b = objects.add_xml_socket(1);
    let first = sockets.connect_avm2(&mut objects, a, String::from("a"), 1).unwrap();
    let second = sockets.connect_avm1(&mut objects, b, String::from("b"), 1).unwrap();
    sockets.send(second.handle, vec![7, 7]);
    assert!(first.receiver.try_recv().is_err());
    assert_eq!(second.receiver.try_recv(), Ok(vec![7, 7]));
}

#[test]
fn send_to_a_removed_handle_is_dropped_silently() {
    let mut sockets = Sockets::empty();
    let mut objects = ScriptObjects::new();
    let target = objects.add_socket(1);
    let other = objects.add_socket(1);
    let request = sockets.connect_avm2(&mut objects, target, String::from("a"), 1).unwrap();
    let kept = sockets.connect_avm2(&mut objects, other, String::from("a"), 1).unwrap();
    sockets.close(&mut objects, request.handle);
    sockets.send(request.handle, vec![1, 2, 3]);
    assert!(request.receiver.try_recv().is_err());
    assert!(kept.receiver.try_recv().is_err());
    assert!(!sockets.is_connected(request.handle));
    assert!(sockets.is_connected(kept.handle));
    assert_eq!(sockets.generation(), 1);
    assert_eq!(read_buffer(&objects, target), Vec::<u8>::new());
}

#[test]
fn send_to_a_handle_that_never_existed_is_dropped_silently() {
    let mut sockets = Sockets::empty();
    sockets.send(SocketHandle { index: 5, generation: 9 }, vec![1]);
    assert_eq!(sockets.generation(), 0);
    assert!(!sockets.is_connected(SocketHandle { index: 5, generation: 9 }));
}

#[test]
fn request_sender_feeds_the_action_queue() {
    let mut sockets = Sockets::empty();
    let mut objects = ScriptObjects::new();
    let target = objects.add_socket(1);
    let request = sockets.connect_avm2(&mut objects, target, String::from("a"), 1).unwrap();
    request.sender.send(SocketAction::Close(request.handle)).unwrap();
    request.sender.send(SocketAction::Data(request.handle, vec![1])).unwrap();
    let drained = sockets.drain_actions();
    assert_eq!(
        drained,
        vec![SocketAction::Close(request.handle), SocketAction::Data(request.handle, vec![1])]
    );
    assert_eq!(sockets.drain_actions(), vec![]);
}

#[test]
fn target_object_is_the_position_in_the_store() {
    assert_eq!(SocketKind::Avm1(4).object(), 4);
    assert_eq!(SocketKind::Avm2(0).object(), 0);
}

#[test]
fn store_hands_out_positions_in_order() {
    let mut objects = ScriptObjects::new();
    assert_eq!(objects.add_object(), 0);
    assert_eq!(objects.add_xml_socket(7), 1);
    assert_eq!(objects.add_socket(8), 2);
    assert_eq!(objects.timeout(SocketKind::Avm1(1)), Some(7));
    assert_eq!(objects.timeout(SocketKind::Avm2(2)), Some(8));
    assert_eq!(objects.timeout(SocketKind::Avm2(1)), None);
    assert_eq!(objects.timeout(SocketKind::Avm1(2)), None);
    assert_eq!(objects.timeout(SocketKind::Avm1(0)), None);
    assert_eq!(objects.timeout(SocketKind::Avm2(3)), None);
}

#[test]
fn set_handle_returns_what_the_slot_held() {
    let mut objects = ScriptObjects::new();
    let plain = objects.add_object();
    let legacy = objects.add_xml_socket(1);
    let a = SocketHandle { index: 1, generation: 2 };
    let b = SocketHandle { index: 3, generation: 4 };
    assert_eq!(objects.set_handle(SocketKind::Avm1(legacy), a), None);
    assert_eq!(objects.set_handle(SocketKind::Avm1(legacy), b), Some(a));
    assert_eq!(slot(&objects, legacy), Some(b));
    assert_eq!(objects.set_handle(SocketKind::Avm2(legacy), a), None);
    assert_eq!(slot(&objects, legacy), Some(b));
    assert_eq!(objects.set_handle(SocketKind::Avm1(plain), a), None);
    assert_eq!(objects.set_handle(SocketKind::Avm1(9), a), None);
}

#[test]
fn clear_buffers_empties_only_the_named_object() {
    let mut objects = ScriptObjects::new();
    let modern = objects.add_socket(1);
    let legacy = objects.add_xml_socket(1);
    fill(&mut objects, modern, b"r", b"w");
    fill(&mut objects, legacy, b"x", b"");
    objects.clear_buffers(SocketKind::Avm1(modern));
    assert_eq!(read_buffer(&objects, modern), b"r".to_vec());
    objects.clear_buffers(SocketKind::Avm2(modern));
    assert_eq!(read_buffer(&objects, modern), Vec::<u8>::new());
    assert_eq!(write_buffer(&objects, modern), Vec::<u8>::new());
    assert_eq!(read_buffer(&objects, legacy), b"x".to_vec());
    objects.clear_buffers(SocketKind::Avm1(legacy));
    assert_eq!(read_buffer(&objects, legacy), Vec::<u8>::new());
    objects.clear_buffers(SocketKind::Avm1(40));
}

#[test]
fn handles_of_many_closed_connections_stay_invalid() {
    let mut sockets = Sockets::empty();
    let mut objects = ScriptObjects::new();
    let target = objects.add_xml_socket(1);
    let keeper = objects.add_socket(1);
    let kept = sockets.connect_avm2(&mut objects, keeper, String::from("k"), 1).unwrap().handle;
    let mut retired = Vec::new();
    for round in 0..100u64 {
        let handle = sockets.connect_avm1(&mut objects, target, String::from("h"), 1).unwrap().handle;
        assert_eq!(handle.generation, round);
        assert!(!retired.contains(&handle));
        assert_ne!(handle, kept);
        sockets.close(&mut objects, handle);
        retired.push(handle);
        assert_eq!(sockets.generation(), round + 1);
    }
    for handle in retired {
        assert!(!sockets.is_connected(handle));
    }
    assert!(sockets.is_connected(kept));
    assert_eq!(kept.generation, 0);
}

#[test]
fn one_object_is_served_by_one_connection_at_a_time() {
    let mut sockets = Sockets::empty();
    let mut objects = ScriptObjects::new();
    let target = objects.add_socket(1);
    let mut handles = Vec::new();
    for _ in 0..5 {
        handles.push(sockets.connect_avm2(&mut objects, target, String::from("h"), 1).unwrap().handle);
    }
    let live: Vec<&SocketHandle> = handles.iter().filter(|h| sockets.is_connected(**h)).collect();
    assert_eq!(live, vec![&handles[4]]);
    assert_eq!(slot(&objects, target), Some(handles[4]));
    assert_eq!(sockets.generation(), 4);
}
