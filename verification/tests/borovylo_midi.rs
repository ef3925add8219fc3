use borovylo::borovylo::podulo::{find_port, ClockError, Driver, PortError};
use borovylo::borovylo::subscribe::Manager;

#[test]
fn port_is_found_by_name() {
    let names = vec!["Saffire 6 USB".to_string(), "Midi Through:Port-0".to_string(), "Midi Through 2".to_string()];
    assert_eq!(find_port(&names, "Midi Through"), Ok(1));
    assert_eq!(find_port(&names, "Nothing"), Err(PortError::NotFound));
    assert_eq!(find_port(&vec![], "Midi Through"), Err(PortError::NoPorts));
    assert_eq!(PortError::NotFound.message("Midi Through"), "не найден midi port с именем 'Midi Through'");
    assert_eq!(PortError::NoPorts.message("x"), "не наден ни один midi port");
}

#[test]
fn parameter_change_is_repeated() {
    let mut d = Driver::new();
    // raising at speed 7: control change 0, every 190 ms
    assert_eq!(d.on_action(3, Some([0xB0, 4, 7]), 1_000), Some([0xB0, 4, 0]));
    assert_eq!(d.on_tick(1_000 + 189_999_999), Ok(None));
    assert_eq!(d.on_tick(1_000 + 190_000_000), Ok(Some([0xB0, 4, 0])));
    assert_eq!(d.on_tick(1_000 + 190_000_000), Ok(None));
    assert_eq!(d.on_tick(0), Err(ClockError));
    // stop
    assert_eq!(d.on_action(4, None, 2_000_000_000), None);
    assert!(d.repeat_job.is_none());
    assert_eq!(d.on_tick(9_000_000_000), Ok(None));
}

#[test]
fn layout_and_activation_are_sent_once() {
    let mut d = Driver::new();
    d.on_action(3, Some([0xB0, 4, 2]), 0);
    assert_eq!(d.on_action(1, Some([0x90, 1, 3]), 5), Some([0x90, 1, 3]));
    assert!(d.repeat_job.is_none());
    assert_eq!(d.on_action(2, Some([0x90, 2, 1]), 5), Some([0x90, 2, 1]));
    assert_eq!(d.on_action(9, Some([1, 2, 3]), 5), None);
    // a stop without a change in progress does nothing
    assert_eq!(d.on_action(5, None, 5), None);
}

#[test]
fn subscribers_get_published_notices() {
    let mut m: Manager<u32> = Manager::new();
    let (a, mut ra) = m.subscribe();
    let (b, mut rb) = m.subscribe();
    assert_eq!((a, b), (0, 1));
    m.publish(7);
    assert_eq!(ra.receiver.try_next().unwrap(), Some(7));
    assert_eq!(rb.receiver.try_next().unwrap(), Some(7));
    m.unsubscribe(a);
    m.publish(8);
    assert_eq!(rb.receiver.try_next().unwrap(), Some(8));
    assert!(ra.receiver.try_next().is_err() || ra.receiver.try_next().unwrap().is_none());
    let (c, mut rc) = m.subscribe();
    assert_eq!(c, 0);
    m.publish(9);
    m.publish(10);
    assert_eq!(rc.receiver.try_next().unwrap(), Some(9));
    assert_eq!(rc.receiver.try_next().unwrap(), Some(10));
    assert_eq!(rb.receiver.try_next().unwrap(), Some(9));
}

#[test]
fn publishing_without_subscribers_reaches_no_one() {
    let mut m: Manager<u32> = Manager::new();
    m.publish(1);
    let (_, mut r) = m.subscribe();
    assert!(r.receiver.try_next().is_err());
    m.publish(2);
    assert_eq!(r.receiver.try_next().unwrap(), Some(2));
}

#[test]
fn nothing_repeats_after_a_layout_change() {
    let mut d = Driver::new();
    d.on_action(3, Some([0xB0, 4, 10]), 0);
    assert_eq!(d.on_action(1, Some([0x90, 1, 2]), 10), Some([0x90, 1, 2]));
    assert_eq!(d.on_action(2, Some([0x90, 2, 1]), 20), Some([0x90, 2, 1]));
    for t in [100_000_000u128, 1_000_000_000, 5_000_000_000] {
        assert_eq!(d.on_tick(t), Ok(None));
    }
}
