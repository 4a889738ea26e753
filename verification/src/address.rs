//! The address a client is held accountable for.

use vstd::prelude::*;

verus! {

/// An IP address: the four octets of a version 4 address, or the eight
/// segments of a version 6 one.
#[derive(Debug, Clone, Copy)]
pub enum ClientIp {
    V4([u8; 4]),
    V6([u16; 8]),
}

impl ClientIp {
    /// 127.0.0.0/8, or ::1.
    pub open spec fn loopback(self) -> bool {
        match self {
            ClientIp::V4(octets) => octets@[0] == 127,
            ClientIp::V6(segments) => segments@[7] == 1 && forall|i: int|
                0 <= i < 7 ==> segments@[i] == 0,
        }
    }
}

/// Whether `ip` is a loopback address.
pub fn is_loopback(ip: ClientIp) -> (res: bool)
    ensures
        res == ip.loopback(),
{
    match ip {
        ClientIp::V4(octets) => octets[0] == 127,
        ClientIp::V6(segments) => segments[0] == 0 && segments[1] == 0 && segments[2] == 0
            && segments[3] == 0 && segments[4] == 0 && segments[5] == 0 && segments[6] == 0
            && segments[7] == 1,
    }
}

} // verus!
