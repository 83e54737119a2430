//! Telling the four wire protocols apart by fixed byte positions.

use vstd::prelude::*;

verus! {

/// How many leading bytes of a session are looked at.
pub const PREFIX_LEN: usize = 62;

/// Offset of the CR LF pair that follows Trojan's authentication field.
pub const TROJAN_CRLF_OFFSET: usize = 56;

/// The wire protocol that a session speaks.
#[derive(Clone, Copy, Debug, PartialEq, Eq, Structural)]
pub enum Protocol {
    Vless,
    Shadowsocks,
    Trojan,
    Vmess,
}

/// The protocol that a captured prefix selects, or `None` where a byte that
/// the decision needs lies beyond the prefix.
///
/// The checks run in a fixed order: byte 0 for VLESS, byte 0 for Shadowsocks,
/// bytes 56 and 57 for Trojan, and VMess for whatever is left.
pub open spec fn classification(prefix: Seq<u8>) -> Option<Protocol> {
    if prefix.len() < 1 {
        None
    } else if prefix[0] == 0x00 {
        Some(Protocol::Vless)
    } else if prefix[0] == 0x01 || prefix[0] == 0x03 {
        Some(Protocol::Shadowsocks)
    } else if prefix.len() < TROJAN_CRLF_OFFSET + 2 {
        None
    } else if prefix[TROJAN_CRLF_OFFSET as int] == 0x0D && prefix[TROJAN_CRLF_OFFSET + 1] == 0x0A {
        Some(Protocol::Trojan)
    } else {
        Some(Protocol::Vmess)
    }
}

/// Classifies a session by the prefix captured from it.
///
/// `None` means that the prefix is too short to decide: the session is to be
/// rejected for want of data.
pub fn classify(prefix: &[u8]) -> (r: Option<Protocol>)
    ensures
        r == classification(prefix@),
        prefix@.len() >= 1 && prefix@[0] == 0x00 ==> r == Some(Protocol::Vless),
        prefix@.len() >= 1 && (prefix@[0] == 0x01 || prefix@[0] == 0x03) ==> r == Some(
            Protocol::Shadowsocks,
        ),
        prefix@.len() >= 58 && prefix@[0] != 0x00 && prefix@[0] != 0x01 && prefix@[0] != 0x03
            && prefix@[56] == 0x0D && prefix@[57] == 0x0A ==> r == Some(Protocol::Trojan),
        prefix@.len() >= 58 && prefix@[0] != 0x00 && prefix@[0] != 0x01 && prefix@[0] != 0x03 && !(
        prefix@[56] == 0x0D && prefix@[57] == 0x0A) ==> r == Some(Protocol::Vmess),
        r is None <==> prefix@.len() == 0 || (prefix@.len() < 58 && prefix@[0] != 0x00
            && prefix@[0] != 0x01 && prefix@[0] != 0x03),
{
    if prefix.len() < 1 {
        return None;
    }
    let first: u8 = prefix[0];
    if first == 0x00 {
        Some(Protocol::Vless)
    } else if first == 0x01 || first == 0x03 {
        Some(Protocol::Shadowsocks)
    } else if prefix.len() < TROJAN_CRLF_OFFSET + 2 {
        None
    } else if prefix[TROJAN_CRLF_OFFSET] == 0x0D && prefix[TROJAN_CRLF_OFFSET + 1] == 0x0A {
        Some(Protocol::Trojan)
    } else {
        Some(Protocol::Vmess)
    }
}

} // verus!
