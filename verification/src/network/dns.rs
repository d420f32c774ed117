//! Names for special IP addresses.
use vstd::prelude::*;
use crate::text::concat;

verus! {

/// An IP address: four octets, or eight 16-bit segments.
#[derive(Debug, Clone, Copy)]
pub enum IpAddress {
    V4([u8; 4]),
    V6([u16; 8]),
}

/// The name of a special address: loopback, unspecified, broadcast (IPv4 only) or multicast.
pub open spec fn special_name(ip: IpAddress) -> Option<Seq<char>> {
    match ip {
        IpAddress::V4(o) => if o@[0] == 127 {
            Some("localhost"@)
        } else if o@[0] == 0 && o@[1] == 0 && o@[2] == 0 && o@[3] == 0 {
            Some("unspecified"@)
        } else if o@[0] == 255 && o@[1] == 255 && o@[2] == 255 && o@[3] == 255 {
            Some("broadcast"@)
        } else if 224 <= o@[0] <= 239 {
            Some("multicast"@)
        } else {
            None
        },
        IpAddress::V6(s) => if s@ == seq![0u16, 0, 0, 0, 0, 0, 0, 1] {
            Some("localhost"@)
        } else if s@ == seq![0u16, 0, 0, 0, 0, 0, 0, 0] {
            Some("unspecified"@)
        } else if s@[0] >= 0xff00 {
            Some("multicast"@)
        } else {
            None
        },
    }
}

/// The names that std's address classes get: every address of the loopback block 127.0.0.0/8
/// and ::1 is "localhost", 0.0.0.0 and :: are "unspecified", 255.255.255.255 is "broadcast",
/// 224.0.0.0/4 and ff00::/8 are "multicast", and no other address has a name.
pub proof fn lemma_special_name_classes(ip: IpAddress)
    ensures
        ip matches IpAddress::V4(o) && o@[0] == 127 ==> special_name(ip) == Some("localhost"@),
        ip matches IpAddress::V4(o) && o@ == seq![0u8, 0, 0, 0] ==> special_name(ip) == Some("unspecified"@),
        ip matches IpAddress::V4(o) && o@ == seq![255u8, 255, 255, 255] ==> special_name(ip) == Some("broadcast"@),
        ip matches IpAddress::V4(o) && 224 <= o@[0] <= 239 ==> special_name(ip) == Some("multicast"@),
        ip matches IpAddress::V4(o) && o@[0] != 127 && o@ != seq![0u8, 0, 0, 0] && o@ != seq![255u8, 255, 255, 255]
            && !(224 <= o@[0] <= 239) ==> special_name(ip) is None,
        ip matches IpAddress::V6(g) && g@ == seq![0u16, 0, 0, 0, 0, 0, 0, 1] ==> special_name(ip) == Some("localhost"@),
        ip matches IpAddress::V6(g) && g@ == seq![0u16, 0, 0, 0, 0, 0, 0, 0] ==> special_name(ip) == Some("unspecified"@),
        ip matches IpAddress::V6(g) && g@[0] >= 0xff00 ==> special_name(ip) == Some("multicast"@),
        ip matches IpAddress::V6(g) && g@ != seq![0u16, 0, 0, 0, 0, 0, 0, 1] && g@ != seq![0u16, 0, 0, 0, 0, 0, 0, 0]
            && g@[0] < 0xff00 ==> special_name(ip) is None,
{
    match ip {
        IpAddress::V4(o) => {
            if o@ == seq![0u8, 0, 0, 0] {
                assert(o@[0] == 0 && o@[1] == 0 && o@[2] == 0 && o@[3] == 0);
            }
            if o@ == seq![255u8, 255, 255, 255] {
                assert(o@[0] == 255 && o@[1] == 255 && o@[2] == 255 && o@[3] == 255);
            }
            if o@[0] == 0 && o@[1] == 0 && o@[2] == 0 && o@[3] == 0 {
                assert(o@ =~= seq![0u8, 0, 0, 0]);
            }
            if o@[0] == 255 && o@[1] == 255 && o@[2] == 255 && o@[3] == 255 {
                assert(o@ =~= seq![255u8, 255, 255, 255]);
            }
        },
        IpAddress::V6(g) => {
            if g@ == seq![0u16, 0, 0, 0, 0, 0, 0, 1] {
                assert(g@[0] == 0);
            }
            if g@ == seq![0u16, 0, 0, 0, 0, 0, 0, 0] {
                assert(g@[0] == 0);
            }
        },
    }
}

/// The name of a special address, if `ip` is one.
pub fn special_address_name(ip: &IpAddress) -> (r: Option<&'static str>)
    ensures
        match special_name(*ip) {
            Some(n) => r is Some && r->Some_0@ == n,
            None => r is None,
        },
        ip matches IpAddress::V4(o) && o@[0] == 127 ==> r is Some && r->Some_0@ == "localhost"@,
        ip matches IpAddress::V6(g) && g@ == seq![0u16, 0, 0, 0, 0, 0, 0, 1] ==> r is Some && r->Some_0@ == "localhost"@,
{
    proof {
        lemma_special_name_classes(*ip);
    }
    match ip {
        IpAddress::V4(o) => {
            if o[0] == 127 {
                Some("localhost")
            } else if o[0] == 0 && o[1] == 0 && o[2] == 0 && o[3] == 0 {
                Some("unspecified")
            } else if o[0] == 255 && o[1] == 255 && o[2] == 255 && o[3] == 255 {
                Some("broadcast")
            } else if 224 <= o[0] && o[0] <= 239 {
                Some("multicast")
            } else {
                None
            }
        },
        IpAddress::V6(s) => {
            let zero_prefix = s[0] == 0 && s[1] == 0 && s[2] == 0 && s[3] == 0 && s[4] == 0 && s[5] == 0
                && s[6] == 0;
            if zero_prefix && s[7] == 1 {
                assert(s@ =~= seq![0u16, 0, 0, 0, 0, 0, 0, 1]);
                Some("localhost")
            } else if zero_prefix && s[7] == 0 {
                assert(s@ =~= seq![0u16, 0, 0, 0, 0, 0, 0, 0]);
                Some("unspecified")
            } else if s[0] >= 0xff00 {
                Some("multicast")
            } else {
                assert(s@ != seq![0u16, 0, 0, 0, 0, 0, 0, 1]) by {
                    if s@ == seq![0u16, 0, 0, 0, 0, 0, 0, 1] {
                        assert(s@[7] == 1);
                    }
                }
                assert(s@ != seq![0u16, 0, 0, 0, 0, 0, 0, 0]) by {
                    if s@ == seq![0u16, 0, 0, 0, 0, 0, 0, 0] {
                        assert(s@[7] == 0);
                    }
                }
                None
            }
        },
    }
}

/// The name to show for `addr`, given what parsing it as an IP address gave: a name for special
/// addresses, the address itself otherwise, and "Invalid IP address: " and the parser's
/// message when it is not an IP address.
pub fn reverse_lookup(addr: &str, parsed: Result<IpAddress, String>) -> (r: Result<String, String>)
    ensures
        match parsed {
            Err(e) => r is Err && r->Err_0@ == "Invalid IP address: "@ + e@,
            Ok(ip) => r is Ok && r->Ok_0@ == match special_name(ip) {
                Some(n) => n,
                None => addr@,
            },
        },
        parsed matches Ok(IpAddress::V4(o)) && o@[0] == 127 ==> r is Ok && r->Ok_0@ == "localhost"@,
        parsed matches Ok(IpAddress::V6(g)) && g@ == seq![0u16, 0, 0, 0, 0, 0, 0, 1] ==> r is Ok && r->Ok_0@ == "localhost"@,
{
    proof {
        if let Ok(ip) = parsed {
            lemma_special_name_classes(ip);
        }
    }
    match parsed {
        Err(e) => Err(concat("Invalid IP address: ", e.as_str())),
        Ok(ip) => match special_address_name(&ip) {
            Some(name) => Ok(String::from_str(name)),
            None => Ok(addr.to_owned()),
        },
    }
}

} // verus!
