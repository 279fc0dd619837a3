//! PROXY-protocol header encoders.
//!
//! Version 1 is a single ASCII line naming the family, the two addresses
//! and the two ports. Version 2 is a fixed-layout binary record: a 12-byte
//! signature, a version/command byte, a family byte, a big-endian length,
//! then raw source and destination octets and big-endian ports. Source is
//! the client's address, destination the relay's own address as the client
//! sees it. Both encoders are pure; both reject a pair of addresses whose
//! families differ, which the protocol leaves undefined.

use vstd::prelude::*;

use crate::addr::Endpoint;
use crate::addr::IpAddress;
use crate::addr::push_dec;
use crate::addr::push_ip_text;
use crate::addr::spec_dec;
use crate::addr::spec_ip_text;

verus! {

/// Why a header could not be built.
#[derive(Clone, Copy, Debug, PartialEq, Eq, Structural)]
pub enum HeaderError {
    /// One address is IPv4 and the other IPv6; the protocol defines no
    /// header for such a pair.
    MixedAddressFamily,
}

/// The version 1 text line: `"PROXY TCP4 <client ip> <proxy ip> <client
/// port> <proxy port>\r\n"`, with `TCP6` when the client address is IPv6.
pub open spec fn spec_v1_header(client: Endpoint, proxy: Endpoint) -> Seq<u8> {
    seq![80u8, 82u8, 79u8, 88u8, 89u8, 32u8, 84u8, 67u8, 80u8] + (if client.ip is V4 {
        seq![52u8]
    } else {
        seq![54u8]
    }) + seq![32u8] + spec_ip_text(client.ip) + seq![32u8] + spec_ip_text(proxy.ip) + seq![32u8]
        + spec_dec(client.port as nat) + seq![32u8] + spec_dec(proxy.port as nat) + seq![
        13u8,
        10u8,
    ]
}

/// A port as two bytes, big endian.
pub open spec fn spec_port_be(p: u16) -> Seq<u8> {
    seq![(p / 256) as u8, (p % 256) as u8]
}

/// The raw octets of an address, network byte order.
pub open spec fn spec_ip_octets(ip: IpAddress) -> Seq<u8> {
    match ip {
        IpAddress::V4(a) => a@,
        IpAddress::V6(a) => a@,
    }
}

/// The fixed 12-byte signature that opens every version 2 header.
pub open spec fn spec_v2_signature() -> Seq<u8> {
    seq![13u8, 10u8, 13u8, 10u8, 0u8, 13u8, 10u8, 81u8, 85u8, 73u8, 84u8, 10u8]
}

/// The version 2 binary header: signature, version/command `0x21`, a
/// family byte and address-block length taken from the client's family
/// (`0x11`/12 for IPv4, `0x21`/36 for IPv6), then client octets, proxy
/// octets, client port and proxy port, ports big endian.
pub open spec fn spec_v2_header(client: Endpoint, proxy: Endpoint) -> Seq<u8> {
    spec_v2_signature() + seq![33u8] + (if client.ip is V4 {
        seq![17u8, 0u8, 12u8]
    } else {
        seq![33u8, 0u8, 36u8]
    }) + spec_ip_octets(client.ip) + spec_ip_octets(proxy.ip) + spec_port_be(client.port)
        + spec_port_be(proxy.port)
}

fn push_octets<const N: usize>(out: &mut Vec<u8>, a: &[u8; N], i: usize)
    requires
        i <= N,
    ensures
        final(out)@ == old(out)@ + a@.skip(i as int),
    decreases N - i,
{
    if i < N {
        out.push(a[i]);
        push_octets(out, a, i + 1);
        assert(out@ =~= old(out)@ + a@.skip(i as int));
    } else {
        assert(out@ =~= old(out)@ + a@.skip(i as int));
    }
}

fn push_port_be(out: &mut Vec<u8>, p: u16)
    ensures
        final(out)@ == old(out)@ + spec_port_be(p),
{
    out.push((p / 256) as u8);
    out.push((p % 256) as u8);
    assert(out@ =~= old(out)@ + spec_port_be(p));
}

/// Build the version 1 text header for a connection from `client`
/// arriving at `proxy`; rejected when the two families differ.
pub fn encode_v1(client: &Endpoint, proxy: &Endpoint) -> (r: Result<Vec<u8>, HeaderError>)
    ensures
        client.ip.spec_same_family(proxy.ip) ==> (r matches Ok(v) && v@ == spec_v1_header(
            *client,
            *proxy,
        )),
        !client.ip.spec_same_family(proxy.ip) ==> (r matches Err(e) && e
            == HeaderError::MixedAddressFamily),
{
    if !client.ip.same_family(&proxy.ip) {
        return Err(HeaderError::MixedAddressFamily);
    }
    let mut out: Vec<u8> = Vec::new();
    out.push(80);
    out.push(82);
    out.push(79);
    out.push(88);
    out.push(89);
    out.push(32);
    out.push(84);
    out.push(67);
    out.push(80);
    match &client.ip {
        IpAddress::V4(_) => out.push(52),
        IpAddress::V6(_) => out.push(54),
    }
    out.push(32);
    push_ip_text(&mut out, &client.ip);
    out.push(32);
    push_ip_text(&mut out, &proxy.ip);
    out.push(32);
    push_dec(&mut out, client.port);
    out.push(32);
    push_dec(&mut out, proxy.port);
    out.push(13);
    out.push(10);
    assert(out@ =~= spec_v1_header(*client, *proxy));
    Ok(out)
}

/// Build the version 2 binary header for a connection from `client`
/// arriving at `proxy`; rejected when the two families differ.
pub fn encode_v2(client: &Endpoint, proxy: &Endpoint) -> (r: Result<Vec<u8>, HeaderError>)
    ensures
        client.ip.spec_same_family(proxy.ip) ==> (r matches Ok(v) && v@ == spec_v2_header(
            *client,
            *proxy,
        )),
        !client.ip.spec_same_family(proxy.ip) ==> (r matches Err(e) && e
            == HeaderError::MixedAddressFamily),
{
    if !client.ip.same_family(&proxy.ip) {
        return Err(HeaderError::MixedAddressFamily);
    }
    let mut out: Vec<u8> = Vec::new();
    out.push(13);
    out.push(10);
    out.push(13);
    out.push(10);
    out.push(0);
    out.push(13);
    out.push(10);
    out.push(81);
    out.push(85);
    out.push(73);
    out.push(84);
    out.push(10);
    out.push(33);
    match (&client.ip, &proxy.ip) {
        (IpAddress::V4(c), IpAddress::V4(p)) => {
            out.push(17);
            out.push(0);
            out.push(12);
            push_octets(&mut out, c, 0);
            push_octets(&mut out, p, 0);
        },
        (IpAddress::V6(c), IpAddress::V6(p)) => {
            out.push(33);
            out.push(0);
            out.push(36);
            push_octets(&mut out, c, 0);
            push_octets(&mut out, p, 0);
        },
        _ => {
            return Err(HeaderError::MixedAddressFamily);
        },
    }
    push_port_be(&mut out, client.port);
    push_port_be(&mut out, proxy.port);
    assert(out@ =~= spec_v2_header(*client, *proxy));
    Ok(out)
}

/// The version 2 header is 28 bytes for an IPv4 pair and 52 bytes for an
/// IPv6 pair.
pub proof fn lemma_v2_header_len(client: Endpoint, proxy: Endpoint)
    requires
        client.ip.spec_same_family(proxy.ip),
    ensures
        client.ip is V4 ==> spec_v2_header(client, proxy).len() == 28,
        client.ip is V6 ==> spec_v2_header(client, proxy).len() == 52,
{
}

} // verus!
