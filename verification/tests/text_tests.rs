use remit::text::{push_decimal, socket_address};

fn rendered(n: u64) -> String {
    let mut out = String::new();
    push_decimal(&mut out, n);
    out
}

#[test]
fn decimal_rendering_of_edge_values() {
    assert_eq!(rendered(0), "0");
    assert_eq!(rendered(9), "9");
    assert_eq!(rendered(10), "10");
    assert_eq!(rendered(2001), "2001");
    assert_eq!(rendered(65535), "65535");
    assert_eq!(rendered(u64::MAX), u64::MAX.to_string());
}

#[test]
fn decimal_rendering_appends() {
    let mut out = String::from("port ");
    push_decimal(&mut out, 8989);
    assert_eq!(out, "port 8989");
}

#[test]
fn decimal_rendering_round_trips() {
    for n in [0u64, 1, 7, 10, 99, 100, 1234, 50000, 50010, 4294967296] {
        assert_eq!(rendered(n).parse::<u64>().unwrap(), n);
    }
}

#[test]
fn socket_address_joins_host_and_port() {
    assert_eq!(socket_address("192.168.1.5", 2001), "192.168.1.5:2001");
    assert_eq!(socket_address("", 0), ":0");
}
