use icelite::addr::{Endpoint, HostIp};
use icelite::config::{advertised_endpoint, bind_endpoint, resolve_config, NatConfig};

#[test]
fn no_public_address_means_no_explicit_config() {
    assert_eq!(resolve_config(None, None), None);
    assert_eq!(resolve_config(None, Some(HostIp::V4(10, 0, 0, 1))), None);
}

#[test]
fn public_address_alone_defaults_bind_to_wildcard() {
    let c = resolve_config(Some(HostIp::V4(203, 0, 113, 5)), None).unwrap();
    assert_eq!(c.public_ip, HostIp::V4(203, 0, 113, 5));
    assert_eq!(c.bind_ip, HostIp::V4(0, 0, 0, 0));
}

#[test]
fn explicit_bind_address_is_kept() {
    let c = resolve_config(
        Some(HostIp::V4(203, 0, 113, 5)),
        Some(HostIp::V4(172, 17, 0, 2)),
    )
    .unwrap();
    assert_eq!(c.bind_ip, HostIp::V4(172, 17, 0, 2));
    assert_eq!(c.public_ip, HostIp::V4(203, 0, 113, 5));
}

#[test]
fn explicit_mode_binds_fixed_port_and_advertises_public_ip() {
    // With bind=0.0.0.0 and public=203.0.113.5 the socket is bound on
    // 0.0.0.0:10000 and the advertised endpoint is 203.0.113.5:10000.
    let c = resolve_config(Some(HostIp::V4(203, 0, 113, 5)), Some(HostIp::V4(0, 0, 0, 0)));
    let bind = bind_endpoint(&c, HostIp::V4(192, 168, 1, 20));
    assert_eq!(
        bind,
        Endpoint {
            ip: HostIp::V4(0, 0, 0, 0),
            port: 10000
        }
    );
    let adv = advertised_endpoint(&c, bind);
    assert_eq!(
        adv,
        Endpoint {
            ip: HostIp::V4(203, 0, 113, 5),
            port: 10000
        }
    );
}

#[test]
fn auto_detect_mode_lets_the_os_pick_the_port() {
    let c: Option<NatConfig> = None;
    let bind = bind_endpoint(&c, HostIp::V4(192, 168, 1, 20));
    assert_eq!(
        bind,
        Endpoint {
            ip: HostIp::V4(192, 168, 1, 20),
            port: 0
        }
    );
}

#[test]
fn advertised_port_is_always_the_actually_bound_port() {
    // Auto-detect mode: the OS assigned 49152; the advertised endpoint must
    // carry that port and the detected address.
    let none: Option<NatConfig> = None;
    let bound = Endpoint {
        ip: HostIp::V4(192, 168, 1, 20),
        port: 49152,
    };
    assert_eq!(advertised_endpoint(&none, bound), bound);

    // Explicit mode: the advertised IP is the public one, the port the bound
    // one.
    let c = resolve_config(Some(HostIp::V6(0x2001, 0xdb8, 0, 0, 0, 0, 0, 1)), None);
    let bound6 = Endpoint {
        ip: HostIp::V4(0, 0, 0, 0),
        port: 10000,
    };
    let adv = advertised_endpoint(&c, bound6);
    assert_eq!(adv.ip, HostIp::V6(0x2001, 0xdb8, 0, 0, 0, 0, 0, 1));
    assert_eq!(adv.port, 10000);
}
