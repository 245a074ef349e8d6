use power_meter::meter_reading::{MeterReading, RecordError, ScaledValue};
use power_meter::record::{MeterTime, RecordEntry, RecordMessage, RecordSet, ScalarValue};
use power_meter::unit::Unit;

fn entry(obj_name: &[u8], value: ScalarValue) -> RecordEntry {
    RecordEntry {
        obj_name: obj_name.to_vec(),
        val_time: None,
        unit: None,
        scaler: None,
        value,
    }
}

fn record_set(entries: Vec<RecordEntry>) -> RecordSet {
    RecordSet {
        messages: vec![
            RecordMessage::OpenResponse,
            RecordMessage::GetListResponse(entries),
            RecordMessage::CloseResponse,
        ],
    }
}

const TOTAL: &[u8] = &[1, 0, 1, 8, 0, 255];
const LINE_ONE: &[u8] = &[1, 0, 36, 7, 0, 255];
const LINE_TWO: &[u8] = &[1, 0, 56, 7, 0, 255];
const LINE_THREE: &[u8] = &[1, 0, 76, 7, 0, 255];

#[test]
fn wrong_message_count_is_rejected() {
    let rs = RecordSet {
        messages: vec![RecordMessage::OpenResponse, RecordMessage::CloseResponse],
    };
    assert_eq!(MeterReading::parse(&rs), Err(RecordError::WrongMessageCount));
}

#[test]
fn second_message_must_be_a_data_list() {
    let rs = RecordSet {
        messages: vec![
            RecordMessage::OpenResponse,
            RecordMessage::CloseResponse,
            RecordMessage::CloseResponse,
        ],
    };
    assert_eq!(
        MeterReading::parse(&rs),
        Err(RecordError::UnexpectedMessageType)
    );
}

#[test]
fn full_record_set_is_extracted() {
    let mut total = entry(TOTAL, ScalarValue::U64(123456));
    total.unit = Some(30);
    total.scaler = Some(-1);
    total.val_time = Some(MeterTime::SecIndex(777));
    let mut one = entry(LINE_ONE, ScalarValue::I32(100));
    one.unit = Some(27);
    let two = entry(LINE_TWO, ScalarValue::I32(-50));
    let three = entry(LINE_THREE, ScalarValue::I32(0));
    let reading = MeterReading::parse(&record_set(vec![total, one, two, three])).unwrap();
    assert_eq!(reading.meter_time, Some(777));
    assert_eq!(
        reading.meter_reading,
        Some(ScaledValue {
            raw: 123456,
            scale: -1
        })
    );
    assert_eq!(reading.meter_reading_unit, Some(Unit::WattHour));
    assert_eq!(reading.line_one, Some(100));
    assert_eq!(reading.line_one_unit, Some(Unit::Watt));
    assert_eq!(reading.line_two, Some(-50));
    assert_eq!(reading.line_two_unit, None);
    assert_eq!(reading.line_three, Some(0));
}

#[test]
fn unmapped_identifier_changes_nothing() {
    let total = entry(TOTAL, ScalarValue::U64(42));
    let one = entry(LINE_ONE, ScalarValue::I32(7));
    let unmapped = entry(&[1, 0, 2, 8, 0, 255], ScalarValue::U64(999));
    let malformed = entry(&[1, 0, 2], ScalarValue::U64(999));

    let with_noise = MeterReading::parse(&record_set(vec![
        total.clone(),
        unmapped,
        malformed,
        one.clone(),
    ]))
    .unwrap();
    let without_noise = MeterReading::parse(&record_set(vec![total, one])).unwrap();
    assert_eq!(with_noise, without_noise);
}

#[test]
fn total_energy_of_wrong_type_stays_unset() {
    let wrong = entry(TOTAL, ScalarValue::I32(123456));
    let reading = MeterReading::parse(&record_set(vec![wrong])).unwrap();
    assert_eq!(reading.meter_reading, None);
    assert_eq!(reading.meter_reading_unit, None);

    let wrong_u32 = entry(TOTAL, ScalarValue::U32(123456));
    let reading = MeterReading::parse(&record_set(vec![wrong_u32])).unwrap();
    assert_eq!(reading.meter_reading, None);
}

#[test]
fn line_power_of_wrong_type_stays_unset() {
    let wrong = entry(LINE_ONE, ScalarValue::U64(7));
    let reading = MeterReading::parse(&record_set(vec![wrong])).unwrap();
    assert_eq!(reading.line_one, None);
    assert_eq!(reading.line_one_unit, None);
}

#[test]
fn later_entries_win() {
    let first = entry(LINE_ONE, ScalarValue::I32(1));
    let second = entry(LINE_ONE, ScalarValue::I32(2));
    let reading = MeterReading::parse(&record_set(vec![first, second])).unwrap();
    assert_eq!(reading.line_one, Some(2));
}

#[test]
fn empty_data_list_yields_empty_reading() {
    let reading = MeterReading::parse(&record_set(vec![])).unwrap();
    assert_eq!(reading, MeterReading::empty());
    assert_eq!(reading.meter_time, None);
    assert_eq!(reading.meter_reading, None);
}

#[test]
fn display_compact_renders_all_fields() {
    let mut total = entry(TOTAL, ScalarValue::U64(123456));
    total.unit = Some(30);
    total.scaler = Some(-1);
    total.val_time = Some(MeterTime::SecIndex(9));
    let mut one = entry(LINE_ONE, ScalarValue::I32(-42));
    one.unit = Some(27);
    let reading = MeterReading::parse(&record_set(vec![total, one])).unwrap();
    assert_eq!(
        reading.display_compact(),
        "9s, 12345.6 Wh, -42 W, Unknown Unknown, Unknown Unknown"
    );
}

#[test]
fn display_full_renders_labelled_lines() {
    let mut total = entry(TOTAL, ScalarValue::U64(123456));
    total.unit = Some(30);
    total.scaler = Some(-1);
    total.val_time = Some(MeterTime::SecIndex(9));
    let mut one = entry(LINE_ONE, ScalarValue::I32(-42));
    one.unit = Some(27);
    let reading = MeterReading::parse(&record_set(vec![total, one])).unwrap();
    assert_eq!(
        reading.display_full(),
        "Meter Reading: 12345.6 Wh\nMeter Time: 9\nLine One: -42 W\nLine Two: Unknown Unknown\nLine Three: Unknown Unknown\n"
    );
}
