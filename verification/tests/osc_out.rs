use granular::osc_out::{rms_message, rms_payload};

fn texts(v: &[&str]) -> Vec<String> {
    v.iter().map(|s| s.to_string()).collect()
}

#[test]
fn payload_lists_index_value_pairs() {
    assert_eq!(rms_payload(&texts(&[])), "[]");
    assert_eq!(rms_payload(&texts(&["0.5"])), "[[0,0.5]]");
    assert_eq!(rms_payload(&texts(&["0.5", "1"])), "[[0,0.5],[1,1]]");
}

#[test]
fn payload_indices_are_decimal() {
    let values: Vec<String> = (0..12).map(|i| format!("v{}", i)).collect();
    let p = rms_payload(&values);
    assert!(p.starts_with("[[0,v0],[1,v1],"));
    assert!(p.ends_with(",[10,v10],[11,v11]]"));
}

#[test]
fn rms_message_encoding() {
    let bytes = rms_message(&texts(&["0.5", "1"]));
    let mut expected: Vec<u8> = b"/rms\0\0\0\0,s\0\0".to_vec();
    expected.extend_from_slice(b"[[0,0.5],[1,1]]\0");
    assert_eq!(bytes, expected);
    assert_eq!(bytes.len() % 4, 0);
}

#[test]
fn rms_message_of_empty_overview() {
    let bytes = rms_message(&texts(&[]));
    assert_eq!(bytes, b"/rms\0\0\0\0,s\0\0[]\0\0".to_vec());
}
