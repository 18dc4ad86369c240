use ws_session::connection::{generate_random_connection_id, ConnectionId};

#[test]
fn little_endian_bytes_give_the_number() {
    let mut bytes = [0u8; 16];
    bytes[0] = 0x01;
    bytes[1] = 0x02;
    bytes[15] = 0x80;
    let id = ConnectionId::from_le_byte_array(bytes);
    assert_eq!(id.to_u128(), 0x0201u128 + (0x80u128 << 120));
}

#[test]
fn zero_bytes_give_the_reserved_id() {
    let id = ConnectionId::from_le_byte_array([0u8; 16]);
    assert!(id.is_zero());
    assert_eq!(id, ConnectionId::zero());
    assert_eq!(id, ConnectionId::from_u128(0));
}

#[test]
fn random_ids_differ() {
    let a = generate_random_connection_id();
    let b = generate_random_connection_id();
    let c = generate_random_connection_id();
    assert!(a != b || b != c);
}
