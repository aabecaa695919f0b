use clientserver::digits::{hello_message, push_decimal};

#[test]
fn greeting_round_zero() {
    assert_eq!(hello_message(0), b"hello0".to_vec());
}

#[test]
fn greetings_of_a_session() {
    for i in 0..5u32 {
        assert_eq!(hello_message(i), format!("hello{}", i).into_bytes());
    }
}

#[test]
fn greeting_multi_digit() {
    assert_eq!(hello_message(1234567890), b"hello1234567890".to_vec());
    assert_eq!(hello_message(10), b"hello10".to_vec());
}

#[test]
fn decimal_appends_after_existing_bytes() {
    let mut out = b"x=".to_vec();
    push_decimal(&mut out, u32::MAX);
    assert_eq!(out, b"x=4294967295".to_vec());
    let mut zero = Vec::new();
    push_decimal(&mut zero, 0);
    assert_eq!(zero, b"0".to_vec());
}

#[test]
fn greetings_are_distinct() {
    let all: Vec<Vec<u8>> = (0..200u32).map(hello_message).collect();
    for i in 0..all.len() {
        for j in (i + 1)..all.len() {
            assert_ne!(all[i], all[j]);
        }
    }
}
