use maion::raw_packet::RawPacket;

#[test]
fn test_varint() {
    let mut packet = RawPacket::new();
    let values = vec![
        // Gotten from wiki.vg
        (vec![0x00], 0),
        (vec![0x01], 1),
        (vec![0x02], 2),
        (vec![0x7f], 127),
        (vec![0x80, 0x01], 128),
        (vec![0xff, 0x01], 255),
        (vec![0xff, 0xff, 0x7f], 2097151),
        (vec![0xff, 0xff, 0xff, 0xff, 0x07], 2147483647),
        (vec![0xff, 0xff, 0xff, 0xff, 0x0f], -1),
        (vec![0x80, 0x80, 0x80, 0x80, 0x08], -2147483648),
    ];
    for (p, v) in values {
        packet.set(p);
        assert_eq!(packet.decode_varint().unwrap(), v);
        packet.clear()
    }
}

#[test]
fn test_varint_writing() {
    let mut packet = RawPacket::new();
    let values = vec![
        // Gotten from wiki.vg
        (vec![0x00], 0),
        (vec![0x01], 1),
        (vec![0x02], 2),
        (vec![0x7f], 127),
        (vec![0x80, 0x01], 128),
        (vec![0xff, 0x01], 255),
        (vec![0xff, 0xff, 0x7f], 2097151),
        (vec![0xff, 0xff, 0xff, 0xff, 0x07], 2147483647),
        (vec![0xff, 0xff, 0xff, 0xff, 0x0f], -1),
        (vec![0x80, 0x80, 0x80, 0x80, 0x08], -2147483648),
    ];
    for (p, v) in values {
        packet.encode_varint(v);
        assert_eq!(packet.get_vec(), p);
        packet.clear()
    }
}

#[test]
fn test_varlong() {
    let mut packet = RawPacket::new();
    let values = vec![
        (vec![0x00], 0),
        (vec![0x01], 1),
        (vec![0x02], 2),
        (vec![0x7f], 127),
        (vec![0x80, 0x01], 128),
        (vec![0xff, 0x01], 255),
        (vec![0xff, 0xff, 0xff, 0xff, 0x07], 2147483647),
        (
            vec![0xff, 0xff, 0xff, 0xff, 0xff, 0xff, 0xff, 0xff, 0x7f],
            9223372036854775807,
        ),
        (
            vec![0xff, 0xff, 0xff, 0xff, 0xff, 0xff, 0xff, 0xff, 0xff, 0x01],
            -1,
        ),
        (
            vec![0x80, 0x80, 0x80, 0x80, 0xf8, 0xff, 0xff, 0xff, 0xff, 0x01],
            -2147483648,
        ),
        (
            vec![0x80, 0x80, 0x80, 0x80, 0x80, 0x80, 0x80, 0x80, 0x80, 0x01],
            -9223372036854775808,
        ),
    ];
    for (p, v) in values {
        packet.set(p);
        assert_eq!(packet.decode_varlong().unwrap(), v);
        packet.clear()
    }
}

#[test]
fn test_varlong_writing() {
    let mut packet = RawPacket::new();
    let values = vec![
        // Gotten from wiki.vg
        (vec![0x00], 0),
        (vec![0x01], 1),
        (vec![0x02], 2),
        (vec![0x7f], 127),
        (vec![0x80, 0x01], 128),
        (vec![0xff, 0x01], 255),
        (vec![0xff, 0xff, 0xff, 0xff, 0x07], 2147483647),
        (
            vec![0xff, 0xff, 0xff, 0xff, 0xff, 0xff, 0xff, 0xff, 0x7f],
            9223372036854775807,
        ),
        (
            vec![0xff, 0xff, 0xff, 0xff, 0xff, 0xff, 0xff, 0xff, 0xff, 0x01],
            -1,
        ),
        (
            vec![0x80, 0x80, 0x80, 0x80, 0xf8, 0xff, 0xff, 0xff, 0xff, 0x01],
            -2147483648,
        ),
        (
            vec![0x80, 0x80, 0x80, 0x80, 0x80, 0x80, 0x80, 0x80, 0x80, 0x01],
            -9223372036854775808,
        ),
    ];
    for (p, v) in values {
        packet.encode_varlong(v);
        assert_eq!(packet.get_vec(), p);
        packet.clear()
    }
}

#[test]
fn test_bool() {
    let mut packet = RawPacket::new();
    let values = vec![true, false];
    for v in values {
        packet.encode_bool(v);
        assert_eq!(packet.decode_bool().unwrap(), v);
        packet.clear()
    }
}

#[test]
fn test_byte() {
    let mut packet = RawPacket::new();
    let values = vec![0, 1, -1, -128, 127];
    for v in values {
        packet.encode_byte(v);
        assert_eq!(packet.decode_byte().unwrap(), v);
        packet.clear()
    }
}
