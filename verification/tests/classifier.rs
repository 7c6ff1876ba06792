use ipwhere::addr::{classify, IpAddress};

fn v4(a: u8, b: u8, c: u8, d: u8) -> IpAddress {
    IpAddress::V4 { a, b, c, d }
}

fn v6(s0: u16, s1: u16, s2: u16, s3: u16, s4: u16, s5: u16, s6: u16, s7: u16) -> IpAddress {
    IpAddress::V6 { s0, s1, s2, s3, s4, s5, s6, s7 }
}

#[test]
fn loopback_v4_is_not_global() {
    assert!(!classify(&v4(127, 0, 0, 1)));
}

#[test]
fn private_v4_is_not_global() {
    assert!(!classify(&v4(10, 0, 0, 5)));
    assert!(!classify(&v4(172, 16, 0, 1)));
    assert!(!classify(&v4(172, 31, 255, 255)));
    assert!(!classify(&v4(192, 168, 1, 1)));
}

#[test]
fn special_v4_blocks_are_not_global() {
    assert!(!classify(&v4(0, 0, 0, 0)));
    assert!(!classify(&v4(100, 64, 0, 1)));
    assert!(!classify(&v4(169, 254, 1, 1)));
    assert!(!classify(&v4(192, 0, 0, 1)));
    assert!(!classify(&v4(192, 0, 2, 7)));
    assert!(!classify(&v4(198, 18, 0, 1)));
    assert!(!classify(&v4(198, 51, 100, 9)));
    assert!(!classify(&v4(203, 0, 113, 200)));
    assert!(!classify(&v4(224, 0, 0, 1)));
    assert!(!classify(&v4(240, 0, 0, 1)));
    assert!(!classify(&v4(255, 255, 255, 255)));
}

#[test]
fn public_v4_is_global() {
    assert!(classify(&v4(8, 8, 8, 8)));
    assert!(classify(&v4(1, 1, 1, 1)));
    assert!(classify(&v4(142, 250, 203, 110)));
    assert!(classify(&v4(172, 32, 0, 1)));
    assert!(classify(&v4(100, 128, 0, 1)));
}

#[test]
fn protocol_assignment_anycast_hosts_are_global() {
    assert!(classify(&v4(192, 0, 0, 9)));
    assert!(classify(&v4(192, 0, 0, 10)));
}

#[test]
fn link_local_v6_is_not_global() {
    assert!(!classify(&v6(0xfe80, 0, 0, 0, 0, 0, 0, 1)));
}

#[test]
fn special_v6_blocks_are_not_global() {
    assert!(!classify(&v6(0, 0, 0, 0, 0, 0, 0, 0)));
    assert!(!classify(&v6(0, 0, 0, 0, 0, 0, 0, 1)));
    assert!(!classify(&v6(0, 0, 0, 0, 0, 0xffff, 0x0808, 0x0808)));
    assert!(!classify(&v6(0x100, 0, 0, 0, 0, 0, 0, 1)));
    assert!(!classify(&v6(0x64, 0xff9b, 1, 0, 0, 0, 0, 1)));
    assert!(!classify(&v6(0x2001, 0xdb8, 0, 0, 0, 0, 0, 1)));
    assert!(!classify(&v6(0x3fff, 0, 0, 0, 0, 0, 0, 1)));
    assert!(!classify(&v6(0x2001, 2, 0, 0, 0, 0, 0, 1)));
    assert!(!classify(&v6(0x2002, 0, 0, 0, 0, 0, 0, 1)));
    assert!(!classify(&v6(0x5f00, 0, 0, 0, 0, 0, 0, 1)));
    assert!(!classify(&v6(0xfc00, 0, 0, 0, 0, 0, 0, 1)));
    assert!(!classify(&v6(0xfd12, 0, 0, 0, 0, 0, 0, 1)));
    assert!(!classify(&v6(0xff05, 0, 0, 0, 0, 0, 0, 1)));
}

#[test]
fn public_v6_is_global() {
    assert!(classify(&v6(0x2001, 0x4860, 0x4860, 0, 0, 0, 0, 0x8888)));
    assert!(classify(&v6(0x2606, 0x4700, 0x4700, 0, 0, 0, 0, 0x1111)));
    assert!(classify(&v6(0x2001, 3, 0, 0, 0, 0, 0, 1)));
    assert!(classify(&v6(0x2001, 0x20, 0, 0, 0, 0, 0, 1)));
    assert!(classify(&v6(0x64, 0xff9b, 0, 0, 0, 0, 0, 1)));
}
