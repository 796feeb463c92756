use kaikei_voice::device::{device_id, device_id_from, stored_device_id};

fn is_random_uuid(s: &str) -> bool {
    s.len() == 36
        && s.chars().enumerate().all(|(i, c)| match i {
            8 | 13 | 18 | 23 => c == '-',
            14 => c == '4',
            19 => matches!(c, '8' | '9' | 'a' | 'b'),
            _ => matches!(c, '0'..='9' | 'a'..='f'),
        })
}

#[test]
fn stored_id_is_used_without_white_space() {
    let d = device_id(&Some(" abc-1 \r\n".to_string()));
    assert_eq!(d.id, "abc-1");
    assert!(!d.is_new);
}

#[test]
fn new_id_is_a_random_uuid() {
    for _ in 0..200 {
        let d = device_id(&None);
        assert!(d.is_new);
        assert!(is_random_uuid(&d.id), "{}", d.id);
    }
}

#[test]
fn blank_file_gives_a_new_id() {
    let d = device_id(&Some(" \n\t".to_string()));
    assert!(d.is_new);
    assert!(is_random_uuid(&d.id));
    assert!(stored_device_id(&Some("".to_string())).is_none());
}

#[test]
fn new_ids_differ() {
    assert_ne!(device_id(&None).id, device_id(&None).id);
}

#[test]
fn new_id_is_kept_from_then_on() {
    let first = device_id(&None);
    let second = device_id(&Some(first.id.clone()));
    assert_eq!(second.id, first.id);
    assert!(!second.is_new);
    let third = device_id(&Some(second.id.clone() + "\n"));
    assert_eq!(third.id, first.id);
    assert!(!third.is_new);
}

#[test]
fn drawn_id_is_used_only_where_none_is_stored() {
    let d = device_id_from(&Some(" old\n".to_string()), "drawn".to_string());
    assert_eq!(d.id, "old");
    assert!(!d.is_new);
    for none in [None, Some(" ".to_string())] {
        let d = device_id_from(&none, "drawn".to_string());
        assert_eq!(d.id, "drawn");
        assert!(d.is_new);
    }
}
