use gobbler::signals::{decode_signal, encode_signal, Signal};

#[test]
fn round_trip_next() {
    let tag = encode_signal(&Signal::Next);
    assert_eq!(tag, 1);
    assert_eq!(decode_signal(tag), Some(Signal::Next));
}

#[test]
fn round_trip_prev() {
    let tag = encode_signal(&Signal::Prev);
    assert_eq!(tag, 2);
    assert_eq!(decode_signal(tag), Some(Signal::Prev));
}

#[test]
fn no_other_tag_is_valid() {
    assert_eq!(decode_signal(0), None);
    assert_eq!(decode_signal(3), None);
    assert_eq!(decode_signal(42), None);
    assert_eq!(decode_signal(255), None);
}
