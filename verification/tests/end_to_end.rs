use power_meter::cache::LatestReadingCell;
use power_meter::core_loop::{ByteOutcome, CoreLoop};
use power_meter::database::Database;
use power_meter::meter_reading::ScaledValue;
use power_meter::unit::Unit;

fn temp_db_path(tag: &str) -> String {
    let nanos = std::time::SystemTime::now()
        .duration_since(std::time::SystemTime::UNIX_EPOCH)
        .unwrap()
        .as_nanos();
    format!("/tmp/power_meter_e2e_{tag}_{nanos}.sqlite3")
}

/// CRC-16/X-25, as the SML transport and message layers use it.
fn crc_x25(data: &[u8]) -> u16 {
    let mut crc: u16 = 0xFFFF;
    for &byte in data {
        crc ^= byte as u16;
        for _ in 0..8 {
            if crc & 1 != 0 {
                crc = (crc >> 1) ^ 0x8408;
            } else {
                crc >>= 1;
            }
        }
    }
    !crc
}

/// Appends the message checksum (low byte first) and the end marker.
fn with_crc(mut msg: Vec<u8>) -> Vec<u8> {
    let crc = crc_x25(&msg);
    msg.push(0x63);
    msg.push((crc & 0xff) as u8);
    msg.push((crc >> 8) as u8);
    msg.push(0x00);
    msg
}

/// An open response, a data-list response carrying one total-energy entry
/// (value 123456, scale -1, unit 30), and a close response.
fn three_message_payload() -> Vec<u8> {
    let open: Vec<u8> = vec![
        0x76, // message: list of 6
        0x03, 0x01, 0x02, // transaction id
        0x62, 0x00, // group number
        0x62, 0x00, // abort on error
        0x72, // body: list of 2
        0x63, 0x01, 0x01, // tag: open response
        0x76, // open response: list of 6
        0x01, // codepage: none
        0x01, // client id: none
        0x03, 0x31, 0x32, // request file id
        0x04, 0x41, 0x42, 0x43, // server id
        0x01, // reference time: none
        0x01, // sml version: none
    ];
    let data_list: Vec<u8> = vec![
        0x76, // message: list of 6
        0x03, 0x01, 0x03, // transaction id
        0x62, 0x00, // group number
        0x62, 0x00, // abort on error
        0x72, // body: list of 2
        0x63, 0x07, 0x01, // tag: get-list response
        0x77, // get-list response: list of 7
        0x01, // client id: none
        0x04, 0x41, 0x42, 0x43, // server id
        0x01, // list name: none
        0x01, // sensor time: none
        0x71, // value list: one entry
        0x77, // entry: list of 7
        0x07, 0x01, 0x00, 0x01, 0x08, 0x00, 0xFF, // object name 1-0:1.8.0
        0x01, // status: none
        0x01, // value time: none
        0x62, 0x1E, // unit: 30 (watt hours)
        0x52, 0xFF, // scaler: -1
        0x69, 0x00, 0x00, 0x00, 0x00, 0x00, 0x01, 0xE2, 0x40, // value: u64 123456
        0x01, // value signature: none
        0x01, // list signature: none
        0x01, // gateway time: none
    ];
    let close: Vec<u8> = vec![
        0x76, // message: list of 6
        0x03, 0x01, 0x04, // transaction id
        0x62, 0x00, // group number
        0x62, 0x00, // abort on error
        0x72, // body: list of 2
        0x63, 0x02, 0x01, // tag: close response
        0x71, // close response: list of 1
        0x01, // global signature: none
    ];
    let mut payload = Vec::new();
    payload.extend(with_crc(open));
    payload.extend(with_crc(data_list));
    payload.extend(with_crc(close));
    payload
}

#[test]
fn known_good_payload_decodes_to_the_expected_reading() {
    let payload = three_message_payload();
    let framed: Vec<u8> = sml_rs::transport::encode::<Vec<u8>>(&payload).unwrap();

    let path = temp_db_path("ingest");
    let db = Database::load(&path).unwrap();
    let mut cache = LatestReadingCell::new();
    let mut core = CoreLoop::new(false);
    assert!(!core.verbose());

    let mut ingested = Vec::new();
    for byte in framed {
        match core.process_byte(byte, &db, &mut cache).unwrap() {
            ByteOutcome::NeedMoreBytes => {}
            ByteOutcome::Ingested { reading, outcome } => ingested.push((reading, outcome)),
            other => panic!("unexpected outcome: {other:?}"),
        }
    }

    assert_eq!(ingested.len(), 1);
    let (reading, _outcome) = &ingested[0];
    assert_eq!(
        reading.meter_reading,
        Some(ScaledValue {
            raw: 123456,
            scale: -1
        })
    );
    let energy = reading.meter_reading.unwrap();
    let value = energy.raw as f64 / 10f64.powi(-(energy.scale as i32));
    assert_eq!(value, 12345.6);
    assert_eq!(reading.meter_reading_unit, Some(Unit::WattHour));
    assert_eq!(reading.meter_time, None);
    assert_eq!(reading.line_one, None);

    // The reading was published to the cache, which is consume-on-read.
    assert_eq!(cache.take().as_ref(), Some(reading));
    assert_eq!(cache.take(), None);

    // The reading was persisted.
    let rows = db.list_readings().unwrap();
    assert_eq!(rows.len(), 1);
    assert_eq!(f64::from_bits(rows[0].total_energy_bits), 12345.6);
}

#[test]
fn noise_before_a_frame_does_not_stop_ingestion() {
    let payload = three_message_payload();
    let framed: Vec<u8> = sml_rs::transport::encode::<Vec<u8>>(&payload).unwrap();

    let path = temp_db_path("noise");
    let db = Database::load(&path).unwrap();
    let mut cache = LatestReadingCell::new();
    let mut core = CoreLoop::new(true);

    let mut bytes = vec![0x42, 0x13, 0x37];
    bytes.extend(framed);
    let mut saw_reading = false;
    for byte in bytes {
        match core.process_byte(byte, &db, &mut cache).unwrap() {
            ByteOutcome::Ingested { .. } => saw_reading = true,
            ByteOutcome::NeedMoreBytes | ByteOutcome::FrameFault(_) => {}
            other => panic!("unexpected outcome: {other:?}"),
        }
    }
    assert!(saw_reading);
}

#[test]
fn a_corrupted_frame_is_skipped_not_fatal() {
    let payload = three_message_payload();
    let mut framed: Vec<u8> = sml_rs::transport::encode::<Vec<u8>>(&payload).unwrap();
    // Corrupt one byte in the middle of the framed payload.
    let mid = framed.len() / 2;
    framed[mid] ^= 0x01;

    let path = temp_db_path("corrupt");
    let db = Database::load(&path).unwrap();
    let mut cache = LatestReadingCell::new();
    let mut core = CoreLoop::new(true);

    for byte in framed {
        // Whatever each byte yields, it must never be a fatal error.
        let outcome = core.process_byte(byte, &db, &mut cache).unwrap();
        assert!(!matches!(outcome, ByteOutcome::Ingested { .. }));
    }
    assert_eq!(cache.take(), None);
}

#[test]
fn a_framed_but_unparseable_payload_is_skipped_with_a_parse_fault() {
    let garbage: Vec<u8> = vec![0x12, 0x34, 0x56, 0x78];
    let framed: Vec<u8> = sml_rs::transport::encode::<Vec<u8>>(&garbage).unwrap();

    let path = temp_db_path("parsefault");
    let db = Database::load(&path).unwrap();
    let mut cache = LatestReadingCell::new();
    let mut core = CoreLoop::new(false);

    let mut faults = 0;
    for byte in framed {
        match core.process_byte(byte, &db, &mut cache).unwrap() {
            ByteOutcome::NeedMoreBytes => {}
            ByteOutcome::ParseFault(_) => faults += 1,
            other => panic!("unexpected outcome: {other:?}"),
        }
    }
    assert_eq!(faults, 1);
    assert_eq!(cache.take(), None);
    assert_eq!(db.metrics().unwrap().count_readings, 0);
}
