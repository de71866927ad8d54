use turbopack_cli_dev::address::{IpAddr, ServerAddr, SocketAddr};

fn v4(octets: (u8, u8, u8, u8), port: u16) -> ServerAddr {
    ServerAddr::V4 { octets, port }
}

fn v6(
    segments: (u16, u16, u16, u16, u16, u16, u16, u16),
    port: u16,
    ip_text: &str,
) -> ServerAddr {
    ServerAddr::V6 {
        segments,
        port,
        ip_text: ip_text.to_string(),
        text: format!("[{}]:{}", ip_text, port),
    }
}

#[test]
fn loopback_and_unspecified_addresses_are_localhost() {
    let servers = [
        v4((127, 0, 0, 1), 3000),
        v4((127, 255, 3, 4), 3000),
        v4((0, 0, 0, 0), 3000),
        v6((0, 0, 0, 0, 0, 0, 0, 1), 3000, "::1"),
        v6((0, 0, 0, 0, 0, 0, 0, 0), 3000, "::"),
    ];
    for server in servers {
        assert_eq!(server.host(), "localhost");
        assert_eq!(server.index_uri(), "http://localhost:3000");
    }
}

#[test]
fn classes_of_ipv4_addresses() {
    let addresses = [
        (IpAddr::V4(0, 0, 0, 0), false, true),
        (IpAddr::V4(0, 0, 0, 1), false, false),
        (IpAddr::V4(1, 0, 0, 0), false, false),
        (IpAddr::V4(126, 255, 255, 255), false, false),
        (IpAddr::V4(127, 0, 0, 0), true, false),
        (IpAddr::V4(127, 1, 2, 3), true, false),
        (IpAddr::V4(128, 0, 0, 0), false, false),
    ];
    for (ip, loopback, unspecified) in addresses {
        assert_eq!(ip.is_loopback(), loopback);
        assert_eq!(ip.is_unspecified(), unspecified);
    }
}

#[test]
fn classes_of_ipv6_addresses() {
    let addresses = [
        (IpAddr::V6(0, 0, 0, 0, 0, 0, 0, 0), false, true),
        (IpAddr::V6(0, 0, 0, 0, 0, 0, 0, 1), true, false),
        (IpAddr::V6(0, 0, 0, 0, 0, 0, 0, 2), false, false),
        (IpAddr::V6(1, 0, 0, 0, 0, 0, 0, 1), false, false),
        (IpAddr::V6(0, 0, 0, 0, 0, 0xffff, 0x7f00, 1), false, false),
    ];
    for (ip, loopback, unspecified) in addresses {
        assert_eq!(ip.is_loopback(), loopback);
        assert_eq!(ip.is_unspecified(), unspecified);
    }
}

#[test]
fn ipv6_hosts_are_in_brackets() {
    let server = v6((0xfe80, 0, 0, 0, 0, 0, 0, 1), 3000, "fe80::1");
    assert_eq!(server.host(), "[fe80::1]");
    assert_eq!(server.index_uri(), "http://[fe80::1]:3000");
    assert_eq!(server.notation(), "[fe80::1]:3000");
}

#[test]
fn ipv4_hosts_are_dotted_decimals() {
    let server = v4((192, 168, 0, 7), 65535);
    assert_eq!(server.host(), "192.168.0.7");
    assert_eq!(server.index_uri(), "http://192.168.0.7:65535");
    assert_eq!(server.notation(), "192.168.0.7:65535");
    assert_eq!(v4((0, 0, 0, 0), 0).notation(), "0.0.0.0:0");
    assert_eq!(v4((255, 10, 9, 100), 80).notation(), "255.10.9.100:80");
}

#[test]
fn default_ports_are_left_out() {
    assert_eq!(v4((192, 168, 0, 7), 443).index_uri(), "https://192.168.0.7");
    assert_eq!(v4((192, 168, 0, 7), 80).index_uri(), "http://192.168.0.7");
    assert_eq!(
        v4((192, 168, 0, 7), 8080).index_uri(),
        "http://192.168.0.7:8080"
    );
}

#[test]
fn brackets_tell_the_host_from_the_port() {
    // Without brackets both would read `http://fe80::1:3000`.
    let a = v6((0xfe80, 0, 0, 0, 0, 0, 0, 1), 3000, "fe80::1");
    let b = v6((0xfe80, 0, 0, 0, 0, 0, 1, 0x3000), 80, "fe80::1:3000");
    assert_ne!(a.index_uri(), b.index_uri());
}

#[test]
fn different_ipv4_servers_are_written_differently() {
    let a = v4((1, 11, 1, 1), 3000);
    let b = v4((11, 1, 1, 1), 3000);
    assert_ne!(a.index_uri(), b.index_uri());
    assert_ne!(a.notation(), b.notation());
}

#[test]
fn server_address_without_notation() {
    let segments = (1, 2, 3, 4, 5, 6, 7, 8);
    assert_eq!(
        v6(segments, 3000, "1:2:3:4:5:6:7:8").socket_addr(),
        SocketAddr {
            ip: IpAddr::V6(1, 2, 3, 4, 5, 6, 7, 8),
            port: 3000,
        }
    );
    assert_eq!(
        v4((1, 2, 3, 4), 3000).socket_addr(),
        SocketAddr {
            ip: IpAddr::V4(1, 2, 3, 4),
            port: 3000,
        }
    );
}
