use power_meter::cache::LatestReadingCell;
use power_meter::meter_reading::MeterReading;

#[test]
fn publish_then_take_consumes_the_reading() {
    let mut cell = LatestReadingCell::new();
    let mut reading = MeterReading::empty();
    reading.meter_time = Some(17);
    cell.publish(reading);
    assert_eq!(cell.take(), Some(reading));
    assert_eq!(cell.take(), None);
}

#[test]
fn fresh_cell_is_empty() {
    let mut cell = LatestReadingCell::new();
    assert_eq!(cell.take(), None);
}

#[test]
fn publish_replaces_the_previous_reading() {
    let mut cell = LatestReadingCell::new();
    let mut a = MeterReading::empty();
    a.line_one = Some(1);
    let mut b = MeterReading::empty();
    b.line_one = Some(2);
    cell.publish(a);
    cell.publish(b);
    assert_eq!(cell.take(), Some(b));
    assert_eq!(cell.take(), None);
}
