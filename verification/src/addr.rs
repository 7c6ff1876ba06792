//! Address classifier: decides whether an IP address is globally routable.
//!
//! An address is modeled by its raw numeric parts (four octets for v4,
//! eight segments for v6), so the well-known special-purpose ranges are
//! plain comparisons on integers.

use vstd::prelude::*;

verus! {

/// An IP address, v4 or v6, held as plain numeric parts.
#[derive(Clone, Copy, PartialEq, Eq, Structural, Debug)]
pub enum IpAddress {
    V4 { a: u8, b: u8, c: u8, d: u8 },
    V6 { s0: u16, s1: u16, s2: u16, s3: u16, s4: u16, s5: u16, s6: u16, s7: u16 },
}

/// The IANA special-purpose v4 ranges that are not globally routable:
/// "this network" (0.0.0.0/8), private (10/8, 172.16/12, 192.168/16),
/// shared address space (100.64/10), loopback (127/8), link-local
/// (169.254/16), the IETF protocol-assignments block (192.0.0/24, except
/// the two anycast hosts 192.0.0.9 and 192.0.0.10), documentation
/// (192.0.2/24, 198.51.100/24, 203.0.113/24), benchmarking (198.18/15),
/// multicast (224/4), reserved (240/4) and broadcast.
pub open spec fn v4_non_global(a: u8, b: u8, c: u8, d: u8) -> bool {
    ||| a == 0
    ||| a == 10
    ||| a == 127
    ||| (a == 100 && 64 <= b && b < 128)
    ||| (a == 169 && b == 254)
    ||| (a == 172 && 16 <= b && b < 32)
    ||| (a == 192 && b == 168)
    ||| (a == 192 && b == 0 && c == 0 && d != 9 && d != 10)
    ||| (a == 192 && b == 0 && c == 2)
    ||| (a == 198 && (b == 18 || b == 19))
    ||| (a == 198 && b == 51 && c == 100)
    ||| (a == 203 && b == 0 && c == 113)
    ||| a >= 224
}

/// The v6 ranges that are not globally routable: unspecified (::),
/// loopback (::1), v4-mapped (::ffff:0:0/96), the discard block
/// (100::/64), the local-use translation prefix (64:ff9b:1::/48), the
/// IETF protocol-assignments block (2001::/23, except the anycast and
/// ORCHID/DET sub-blocks that are reachable), documentation (2001:db8::/32
/// and 3fff::/20), 6to4 (2002::/16), segment routing (5f00::/16),
/// unique-local (fc00::/7), link-local (fe80::/10) and multicast
/// (ff00::/8).
pub open spec fn v6_non_global(
    s0: u16, s1: u16, s2: u16, s3: u16, s4: u16, s5: u16, s6: u16, s7: u16,
) -> bool {
    ||| (s0 == 0 && s1 == 0 && s2 == 0 && s3 == 0 && s4 == 0 && s5 == 0 && s6 == 0
        && (s7 == 0 || s7 == 1))
    ||| (s0 == 0 && s1 == 0 && s2 == 0 && s3 == 0 && s4 == 0 && s5 == 0xffff)
    ||| (s0 == 0x100 && s1 == 0 && s2 == 0 && s3 == 0)
    ||| (s0 == 0x64 && s1 == 0xff9b && s2 == 1)
    ||| (s0 == 0x2001 && s1 < 0x200 && !v6_protocol_exception(s0, s1, s2, s3, s4, s5, s6, s7))
    ||| (s0 == 0x2001 && s1 == 0xdb8)
    ||| (s0 == 0x3fff && s1 < 0x1000)
    ||| s0 == 0x2002
    ||| s0 == 0x5f00
    ||| (0xfc00 <= s0 && s0 < 0xfe00)
    ||| (0xfe80 <= s0 && s0 < 0xfec0)
    ||| s0 >= 0xff00
}

/// Sub-blocks of 2001::/23 that are globally reachable after all: the
/// port-control and TURN anycast hosts (2001:1::1, 2001:1::2), AMT
/// (2001:3::/32), AS112-v6 (2001:4:112::/48), and ORCHIDv2 together with
/// the drone remote-ID prefix (2001:20::/28 and 2001:30::/28).
pub open spec fn v6_protocol_exception(
    s0: u16, s1: u16, s2: u16, s3: u16, s4: u16, s5: u16, s6: u16, s7: u16,
) -> bool {
    ||| (s1 == 1 && s2 == 0 && s3 == 0 && s4 == 0 && s5 == 0 && s6 == 0 && (s7 == 1 || s7 == 2))
    ||| s1 == 3
    ||| (s1 == 4 && s2 == 0x112)
    ||| (0x20 <= s1 && s1 < 0x40)
}

/// Routability: true exactly when the address lies in none of the
/// special-purpose ranges.
pub open spec fn is_global(addr: IpAddress) -> bool {
    match addr {
        IpAddress::V4 { a, b, c, d } => !v4_non_global(a, b, c, d),
        IpAddress::V6 { s0, s1, s2, s3, s4, s5, s6, s7 } =>
            !v6_non_global(s0, s1, s2, s3, s4, s5, s6, s7),
    }
}

/// Classifies an address as globally routable or not. Pure; this check is
/// made before any database or DNS work, never after it.
pub fn classify(addr: &IpAddress) -> (routable: bool)
    ensures
        routable == is_global(*addr),
{
    match *addr {
        IpAddress::V4 { a, b, c, d } => {
            let non_global = a == 0
                || a == 10
                || a == 127
                || (a == 100 && 64 <= b && b < 128)
                || (a == 169 && b == 254)
                || (a == 172 && 16 <= b && b < 32)
                || (a == 192 && b == 168)
                || (a == 192 && b == 0 && c == 0 && d != 9 && d != 10)
                || (a == 192 && b == 0 && c == 2)
                || (a == 198 && (b == 18 || b == 19))
                || (a == 198 && b == 51 && c == 100)
                || (a == 203 && b == 0 && c == 113)
                || a >= 224;
            !non_global
        },
        IpAddress::V6 { s0, s1, s2, s3, s4, s5, s6, s7 } => {
            let exception = (s1 == 1 && s2 == 0 && s3 == 0 && s4 == 0 && s5 == 0 && s6 == 0
                    && (s7 == 1 || s7 == 2))
                || s1 == 3
                || (s1 == 4 && s2 == 0x112)
                || (0x20 <= s1 && s1 < 0x40);
            let non_global = (s0 == 0 && s1 == 0 && s2 == 0 && s3 == 0 && s4 == 0 && s5 == 0
                    && s6 == 0 && (s7 == 0 || s7 == 1))
                || (s0 == 0 && s1 == 0 && s2 == 0 && s3 == 0 && s4 == 0 && s5 == 0xffff)
                || (s0 == 0x100 && s1 == 0 && s2 == 0 && s3 == 0)
                || (s0 == 0x64 && s1 == 0xff9b && s2 == 1)
                || (s0 == 0x2001 && s1 < 0x200 && !exception)
                || (s0 == 0x2001 && s1 == 0xdb8)
                || (s0 == 0x3fff && s1 < 0x1000)
                || s0 == 0x2002
                || s0 == 0x5f00
                || (0xfc00 <= s0 && s0 < 0xfe00)
                || (0xfe80 <= s0 && s0 < 0xfec0)
                || s0 >= 0xff00;
            !non_global
        },
    }
}

} // verus!
