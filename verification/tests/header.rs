use r2lay::addr::Endpoint;
use r2lay::addr::IpAddress;
use r2lay::addr::push_v6_text;
use r2lay::header::HeaderError;
use r2lay::header::encode_v1;
use r2lay::header::encode_v2;

fn v4(a: u8, b: u8, c: u8, d: u8, port: u16) -> Endpoint {
    Endpoint { ip: IpAddress::V4([a, b, c, d]), port }
}

fn v6(octets: [u8; 16], port: u16) -> Endpoint {
    Endpoint { ip: IpAddress::V6(octets), port }
}

fn v6_text(octets: [u8; 16]) -> String {
    let mut out: Vec<u8> = Vec::new();
    push_v6_text(&mut out, &octets);
    String::from_utf8(out).unwrap()
}

#[test]
fn v1_ipv4_exact() {
    let client = v4(192, 168, 0, 1, 56324);
    let proxy = v4(10, 0, 0, 1, 443);
    let h = encode_v1(&client, &proxy).unwrap();
    assert_eq!(h, b"PROXY TCP4 192.168.0.1 10.0.0.1 56324 443\r\n".to_vec());
}

#[test]
fn v1_ipv4_port_edges() {
    let client = v4(0, 0, 0, 0, 0);
    let proxy = v4(255, 255, 255, 255, 65535);
    let h = encode_v1(&client, &proxy).unwrap();
    assert_eq!(
        h,
        b"PROXY TCP4 0.0.0.0 255.255.255.255 0 65535\r\n".to_vec()
    );
}

#[test]
fn v1_ipv6_exact() {
    let client = v6(
        [0x20, 0x01, 0x0d, 0xb8, 0, 0, 0, 0, 0, 0, 0, 0, 0, 0, 0, 1],
        8080,
    );
    let proxy = v6(
        [0x20, 0x01, 0x0d, 0xb8, 0, 0, 0, 0, 0, 0, 0, 0, 0, 0, 0, 2],
        9000,
    );
    let h = encode_v1(&client, &proxy).unwrap();
    assert_eq!(
        h,
        b"PROXY TCP6 2001:db8::1 2001:db8::2 8080 9000\r\n".to_vec()
    );
}

#[test]
fn v1_mixed_family_rejected() {
    let client = v4(192, 168, 0, 1, 1000);
    let proxy = v6([0; 16], 2000);
    assert!(matches!(
        encode_v1(&client, &proxy),
        Err(HeaderError::MixedAddressFamily)
    ));
    assert!(matches!(
        encode_v1(&proxy, &client),
        Err(HeaderError::MixedAddressFamily)
    ));
}

#[test]
fn v6_text_unspecified_and_loopback() {
    assert_eq!(v6_text([0; 16]), "::");
    let mut lo = [0u8; 16];
    lo[15] = 1;
    assert_eq!(v6_text(lo), "::1");
}

#[test]
fn v6_text_v4_mapped() {
    let mut m = [0u8; 16];
    m[10] = 0xff;
    m[11] = 0xff;
    m[12] = 192;
    m[13] = 0;
    m[14] = 2;
    m[15] = 128;
    assert_eq!(v6_text(m), "::ffff:192.0.2.128");
}

#[test]
fn v6_text_single_zero_group_not_compressed() {
    let b = [
        0x20, 0x01, 0x0d, 0xb8, 0, 0, 0, 1, 0, 1, 0, 1, 0, 1, 0, 1,
    ];
    assert_eq!(v6_text(b), "2001:db8:0:1:1:1:1:1");
}

#[test]
fn v6_text_leftmost_run_wins_tie() {
    let b = [
        0x20, 0x01, 0x0d, 0xb8, 0, 0, 0, 0, 0, 1, 0, 0, 0, 0, 0, 1,
    ];
    assert_eq!(v6_text(b), "2001:db8::1:0:0:1");
}

#[test]
fn v6_text_longest_run_wins() {
    let b = [
        0x20, 0x01, 0, 0, 0, 0, 0, 1, 0, 0, 0, 0, 0, 0, 0, 1,
    ];
    assert_eq!(v6_text(b), "2001:0:0:1::1");
}

#[test]
fn v6_text_no_zero_groups() {
    let b = [
        0x20, 0x01, 0x0d, 0xb8, 0x85, 0xa3, 0x08, 0xd3, 0x13, 0x19, 0x8a, 0x2e, 0x03, 0x70, 0x73,
        0x48,
    ];
    assert_eq!(v6_text(b), "2001:db8:85a3:8d3:1319:8a2e:370:7348");
}

#[test]
fn v2_ipv4_exact() {
    let client = v4(192, 168, 0, 1, 56324);
    let proxy = v4(10, 0, 0, 1, 443);
    let h = encode_v2(&client, &proxy).unwrap();
    let mut expected: Vec<u8> = vec![
        0x0d, 0x0a, 0x0d, 0x0a, 0x00, 0x0d, 0x0a, 0x51, 0x55, 0x49, 0x54, 0x0a,
    ];
    expected.push(0x21);
    expected.push(0x11);
    expected.push(0x00);
    expected.push(0x0c);
    expected.extend_from_slice(&[192, 168, 0, 1]);
    expected.extend_from_slice(&[10, 0, 0, 1]);
    expected.extend_from_slice(&[0xdc, 0x04]);
    expected.extend_from_slice(&[0x01, 0xbb]);
    assert_eq!(h.len(), 28);
    assert_eq!(h, expected);
}

#[test]
fn v2_ipv6_exact() {
    let c: [u8; 16] = [
        0x20, 0x01, 0x0d, 0xb8, 0, 0, 0, 0, 0, 0, 0, 0, 0, 0, 0, 1,
    ];
    let p: [u8; 16] = [
        0x20, 0x01, 0x0d, 0xb8, 0, 0, 0, 0, 0, 0, 0, 0, 0, 0, 0, 2,
    ];
    let client = v6(c, 8080);
    let proxy = v6(p, 9000);
    let h = encode_v2(&client, &proxy).unwrap();
    let mut expected: Vec<u8> = vec![
        0x0d, 0x0a, 0x0d, 0x0a, 0x00, 0x0d, 0x0a, 0x51, 0x55, 0x49, 0x54, 0x0a,
    ];
    expected.push(0x21);
    expected.push(0x21);
    expected.push(0x00);
    expected.push(0x24);
    expected.extend_from_slice(&c);
    expected.extend_from_slice(&p);
    expected.extend_from_slice(&[0x1f, 0x90]);
    expected.extend_from_slice(&[0x23, 0x28]);
    assert_eq!(h.len(), 52);
    assert_eq!(h, expected);
}

#[test]
fn v2_mixed_family_rejected() {
    let client = v6([0; 16], 1);
    let proxy = v4(127, 0, 0, 1, 2);
    assert!(matches!(
        encode_v2(&client, &proxy),
        Err(HeaderError::MixedAddressFamily)
    ));
}
