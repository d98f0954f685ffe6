use shio::net::to_socket_addrs_ext;
use shio::net::HostAddress;
use shio::net::ListenTarget;
use shio::net::SocketAddress;

fn expect_addresses(target: ListenTarget) -> Vec<SocketAddress> {
    match target {
        ListenTarget::Addresses(addresses) => addresses,
        ListenTarget::Resolve(host) => panic!("expected concrete addresses, got host {}", host),
    }
}

#[test]
fn net_to_socket_addrs_ext_str() {
    let addresses = expect_addresses(to_socket_addrs_ext(":7878").unwrap());

    assert_eq!(addresses.len(), 2);
    assert_eq!(
        addresses[0],
        SocketAddress { host: HostAddress::V4(0, 0, 0, 0), port: 7878 }
    );
    assert_eq!(
        addresses[1],
        SocketAddress { host: HostAddress::V6(0, 0, 0, 0, 0, 0, 0, 0), port: 7878 }
    );
}

#[test]
fn net_to_socket_addrs_ext_string() {
    let address = ":7878".to_owned();
    let addresses = expect_addresses(to_socket_addrs_ext(&address).unwrap());

    assert_eq!(addresses.len(), 2);
    assert_eq!(
        addresses[0],
        SocketAddress { host: HostAddress::V4(0, 0, 0, 0), port: 7878 }
    );
    assert_eq!(
        addresses[1],
        SocketAddress { host: HostAddress::V6(0, 0, 0, 0, 0, 0, 0, 0), port: 7878 }
    );
}

#[test]
fn salt_to_socket_addrs_ext_str() {
    let addresses = expect_addresses(to_socket_addrs_ext(":7878").unwrap());

    assert_eq!(addresses.len(), 2);
    assert_eq!(
        addresses[0],
        SocketAddress { host: HostAddress::V4(0, 0, 0, 0), port: 7878 }
    );
    assert_eq!(
        addresses[1],
        SocketAddress { host: HostAddress::V6(0, 0, 0, 0, 0, 0, 0, 0), port: 7878 }
    );
}

#[test]
fn salt_to_socket_addrs_ext_string() {
    let address = ":7878".to_owned();
    let addresses = expect_addresses(to_socket_addrs_ext(&address).unwrap());

    assert_eq!(addresses.len(), 2);
    assert_eq!(
        addresses[0],
        SocketAddress { host: HostAddress::V4(0, 0, 0, 0), port: 7878 }
    );
    assert_eq!(
        addresses[1],
        SocketAddress { host: HostAddress::V6(0, 0, 0, 0, 0, 0, 0, 0), port: 7878 }
    );
}

#[test]
fn util_to_socket_addrs_ext_str() {
    let addresses = expect_addresses(to_socket_addrs_ext(":7878").unwrap());

    assert_eq!(addresses.len(), 2);
    assert_eq!(
        addresses[0],
        SocketAddress { host: HostAddress::V4(0, 0, 0, 0), port: 7878 }
    );
    assert_eq!(
        addresses[1],
        SocketAddress { host: HostAddress::V6(0, 0, 0, 0, 0, 0, 0, 0), port: 7878 }
    );
}

#[test]
fn util_to_socket_addrs_ext_string() {
    let address = ":7878".to_owned();
    let addresses = expect_addresses(to_socket_addrs_ext(&address).unwrap());

    assert_eq!(addresses.len(), 2);
    assert_eq!(
        addresses[0],
        SocketAddress { host: HostAddress::V4(0, 0, 0, 0), port: 7878 }
    );
    assert_eq!(
        addresses[1],
        SocketAddress { host: HostAddress::V6(0, 0, 0, 0, 0, 0, 0, 0), port: 7878 }
    );
}

#[test]
fn plain_addresses_go_to_the_resolver() {
    match to_socket_addrs_ext("localhost:8080").unwrap() {
        ListenTarget::Resolve(host) => assert_eq!(host, "localhost:8080"),
        ListenTarget::Addresses(_) => panic!("a host name is for the resolver"),
    }
}

#[test]
fn a_bad_port_is_rejected() {
    assert!(to_socket_addrs_ext(":not-a-port").is_err());
    assert!(to_socket_addrs_ext(":99999").is_err());
    assert!(to_socket_addrs_ext(":").is_err());
    assert!(to_socket_addrs_ext(":65536").is_err());
    let addresses = expect_addresses(to_socket_addrs_ext(":65535").unwrap());
    assert_eq!(addresses[0].port, 65535);
}

#[test]
fn a_signed_port_parses_like_the_standard_parser() {
    let addresses = expect_addresses(to_socket_addrs_ext(":+80").unwrap());
    assert_eq!(addresses[0].port, 80);
}
