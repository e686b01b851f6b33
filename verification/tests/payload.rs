use mycelial::frame::{CellValue, DataType};
use mycelial::payload::{BacalhauMessage, BacalhauPayload};

#[test]
fn payload_new_keeps_filepath() {
    let p = BacalhauPayload::new("/data/input.csv".to_string());
    assert_eq!(p.filepath, "/data/input.csv");
}

#[test]
fn payload_columns_is_one_filepath_column() {
    let p = BacalhauPayload::new("/tmp/x".to_string());
    let cols = p.columns();
    assert_eq!(cols.len(), 1);
    assert_eq!(cols[0].name, "filepath");
    assert_eq!(cols[0].data_type, DataType::Str);
    assert_eq!(cols[0].values.len(), 1);
    match &cols[0].values[0] {
        CellValue::Str(s) => assert_eq!(s, "/tmp/x"),
        CellValue::Other => panic!("expected a string"),
    }
}

#[test]
fn message_origin() {
    let m: BacalhauMessage<u32> = BacalhauMessage::new("source-a".to_string(), BacalhauPayload::new("f".to_string()), None);
    assert_eq!(m.origin(), "source-a");
}

#[test]
fn message_hands_out_payload_once() {
    let mut m = BacalhauMessage::new("o".to_string(), BacalhauPayload::new("file".to_string()), Some(7u32));
    let first = m.next();
    assert_eq!(first.map(|p| p.filepath), Some("file".to_string()));
    assert!(m.next().is_none());
    assert!(m.next().is_none());
    assert_eq!(m.origin(), "o");
}

#[test]
fn message_hands_out_ack_once() {
    let mut m = BacalhauMessage::new("o".to_string(), BacalhauPayload::new("file".to_string()), Some(7u32));
    assert_eq!(m.ack(), Some(7));
    assert_eq!(m.ack(), None);
    // acknowledging leaves the payload in place
    assert!(m.next().is_some());
}

#[test]
fn message_without_ack() {
    let mut m: BacalhauMessage<u32> = BacalhauMessage::new("o".to_string(), BacalhauPayload::new("file".to_string()), None);
    assert_eq!(m.ack(), None);
}

#[test]
fn message_payload_view() {
    let mut m: BacalhauMessage<u32> = BacalhauMessage::new("o".to_string(), BacalhauPayload::new("f".to_string()), None);
    assert_eq!(m.payload(), Some(&BacalhauPayload::new("f".to_string())));
    m.next();
    assert_eq!(m.payload(), None);
}

