use tui_core::{CommandBus, Error, Event, Key};

#[test]
fn new_bus_is_empty() {
    let bus = CommandBus::new();
    assert_eq!(bus.len(), 0);
    assert!(bus.is_empty());
}

#[test]
fn bus_hands_out_in_order_of_sending() {
    let mut bus = CommandBus::new();
    assert_eq!(bus.send(Event::Tick), Ok(()));
    assert_eq!(bus.send(Event::Key(Key::Char('a'))), Ok(()));
    assert_eq!(bus.send(Event::Frame), Ok(()));
    assert_eq!(bus.send(Event::Quit), Ok(()));
    assert_eq!(bus.len(), 4);
    assert!(!bus.is_empty());
    assert_eq!(bus.try_recv(), Some(Event::Tick));
    assert_eq!(bus.try_recv(), Some(Event::Key(Key::Char('a'))));
    assert_eq!(bus.len(), 2);
    assert_eq!(bus.try_recv(), Some(Event::Frame));
    assert_eq!(bus.try_recv(), Some(Event::Quit));
    assert_eq!(bus.try_recv(), None);
    assert_eq!(bus.len(), 0);
}

#[test]
fn empty_bus_hands_out_nothing() {
    let mut bus = CommandBus::new();
    assert_eq!(bus.try_recv(), None);
    assert_eq!(bus.try_recv(), None);
    assert_eq!(bus.send(Event::Tick), Ok(()));
    assert_eq!(bus.try_recv(), Some(Event::Tick));
    assert_eq!(bus.try_recv(), None);
}

#[test]
fn closed_bus_refuses_and_keeps_its_queue() {
    let mut bus = CommandBus::new();
    assert_eq!(bus.send(Event::Frame), Ok(()));
    bus.close();
    assert_eq!(bus.send(Event::Tick), Err(Error::Channel));
    assert_eq!(bus.len(), 1);
    assert_eq!(bus.try_recv(), Some(Event::Frame));
    assert_eq!(bus.try_recv(), None);
    assert_eq!(bus.send(Event::Quit), Err(Error::Channel));
    assert!(bus.is_empty());
}

#[test]
fn each_event_is_received_once() {
    let mut bus = CommandBus::new();
    let mut sent = Vec::new();
    for i in 0..100u32 {
        let event = match i % 3 {
            0 => Event::Tick,
            1 => Event::Frame,
            _ => Event::Key(Key::Char(char::from_u32(97 + i % 26).unwrap())),
        };
        sent.push(event);
        assert_eq!(bus.send(event), Ok(()));
    }
    assert_eq!(bus.len(), 100);
    let mut received = Vec::new();
    while let Some(event) = bus.try_recv() {
        received.push(event);
    }
    assert_eq!(received, sent);
}
