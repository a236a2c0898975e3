use zenoh_jni::zenoh_id::zenoh_id_to_string;

#[test]
fn zenoh_id_is_lower_hex_of_the_little_endian_number() {
    assert_eq!(zenoh_id_to_string(&[0x01]), Ok("1".to_string()));
    assert_eq!(zenoh_id_to_string(&[0xc0, 0x1b]), Ok("1bc0".to_string()));
    assert_eq!(zenoh_id_to_string(&[0x00, 0xff]), Ok("ff00".to_string()));
    assert_eq!(zenoh_id_to_string(&[0xab, 0x00, 0x00]), Ok("ab".to_string()));
}

#[test]
fn sixteen_bytes_are_accepted() {
    assert_eq!(zenoh_id_to_string(&[0xff; 16]), Ok("f".repeat(32)));
}

#[test]
fn more_than_sixteen_bytes_are_refused() {
    assert_eq!(
        zenoh_id_to_string(&[1; 17]),
        Err("Maximum ID size (16 bytes) exceeded: 17".to_string())
    );
}

#[test]
fn a_zero_id_is_refused() {
    assert_eq!(zenoh_id_to_string(&[]), Err("Maximum ID size (16 bytes) exceeded: 0".to_string()));
    assert_eq!(zenoh_id_to_string(&[0, 0]), Err("Maximum ID size (16 bytes) exceeded: 0".to_string()));
}
