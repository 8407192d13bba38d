//! IP endpoints of either family as plain values, with their display
//! renderings.
//!
//! The IPv6 rendering follows the canonical text form: lowercase hexadecimal
//! groups without leading zeros, the leftmost longest run of two or more
//! zero groups compressed to `::`, an IPv4-mapped address shown with its
//! dotted tail, and the address bracketed when a port follows.

use vstd::prelude::*;
use crate::strfmt::{spec_dec, spec_hex, dec_u128, hex_u16};

verus! {

/// An IPv4 address as four octets.
#[derive(Clone, Copy, PartialEq, Eq, Structural, Debug)]
pub struct IpV4Addr {
    pub a: u8,
    pub b: u8,
    pub c: u8,
    pub d: u8,
}

impl IpV4Addr {
    /// Dotted-quad rendering, e.g. `1.2.3.4`.
    pub open spec fn spec_display(self) -> Seq<char> {
        spec_dec(self.a as int) + seq!['.'] + spec_dec(self.b as int) + seq!['.']
            + spec_dec(self.c as int) + seq!['.'] + spec_dec(self.d as int)
    }

    pub fn new(a: u8, b: u8, c: u8, d: u8) -> (r: IpV4Addr)
        ensures
            r == (IpV4Addr { a, b, c, d }),
    {
        IpV4Addr { a, b, c, d }
    }

    /// Renders the address in dotted-quad form.
    pub fn to_display_string(&self) -> (s: String)
        ensures
            s@ == self.spec_display(),
    {
        proof {
            reveal_strlit(".");
        }
        let mut s = dec_u128(self.a as u128);
        s.append(".");
        let part = dec_u128(self.b as u128);
        s.append(part.as_str());
        s.append(".");
        let part = dec_u128(self.c as u128);
        s.append(part.as_str());
        s.append(".");
        let part = dec_u128(self.d as u128);
        s.append(part.as_str());
        proof {
            assert(s@ =~= self.spec_display());
        }
        s
    }
}

/// An IPv6 address as eight 16-bit groups.
#[derive(Clone, Copy, PartialEq, Eq, Debug)]
pub struct IpV6Addr {
    pub groups: [u16; 8],
}

/// The length of the run of zero groups starting at `i`.
pub open spec fn spec_zero_run_len(gs: Seq<u16>, i: int) -> nat
    decreases gs.len() - i when 0 <= i <= gs.len()
{
    if i >= gs.len() || gs[i] != 0 {
        0
    } else {
        (1 + spec_zero_run_len(gs, i + 1)) as nat
    }
}

/// The leftmost longest run of zero groups in `gs[i..]`, as `(start, len)`:
/// an earlier run wins a tie, and a sub-run is never longer than the run it
/// starts in.
pub open spec fn spec_best_zero_run(gs: Seq<u16>, i: int) -> (int, nat)
    decreases gs.len() - i when 0 <= i <= gs.len()
{
    if i >= gs.len() {
        (i, 0)
    } else {
        let here = spec_zero_run_len(gs, i);
        let rest = spec_best_zero_run(gs, i + 1);
        if here >= rest.1 {
            (i, here)
        } else {
            rest
        }
    }
}

/// The groups `gs[from..to]` rendered in hexadecimal, joined by `:`.
pub open spec fn spec_groups_display(gs: Seq<u16>, from: int, to: int) -> Seq<char>
    decreases to - from when from <= to
{
    if from >= to {
        Seq::<char>::empty()
    } else if from + 1 == to {
        spec_hex(gs[from] as int)
    } else {
        spec_hex(gs[from] as int) + seq![':'] + spec_groups_display(gs, from + 1, to)
    }
}

impl IpV6Addr {
    /// The address is an IPv4-mapped one: `::ffff:a.b.c.d`.
    pub open spec fn spec_is_ipv4_mapped(self) -> bool {
        &&& forall|i: int| 0 <= i < 5 ==> self.groups@[i] == 0
        &&& self.groups@[5] == 0xffffu16
    }

    /// The dotted tail of an IPv4-mapped address: the last two groups as
    /// four octets.
    pub open spec fn spec_mapped_tail(self) -> Seq<char> {
        spec_dec(self.groups@[6] as int / 256) + seq!['.'] + spec_dec(self.groups@[6] as int % 256)
            + seq!['.'] + spec_dec(self.groups@[7] as int / 256) + seq!['.'] + spec_dec(
            self.groups@[7] as int % 256,
        )
    }

    /// The canonical text rendering of the address.
    pub open spec fn spec_display(self) -> Seq<char> {
        if self.spec_is_ipv4_mapped() {
            "::ffff:"@ + self.spec_mapped_tail()
        } else {
            let best = spec_best_zero_run(self.groups@, 0);
            if best.1 < 2 {
                spec_groups_display(self.groups@, 0, 8)
            } else {
                spec_groups_display(self.groups@, 0, best.0) + "::"@ + spec_groups_display(
                    self.groups@,
                    best.0 + best.1,
                    8,
                )
            }
        }
    }

    pub fn new(groups: [u16; 8]) -> (r: IpV6Addr)
        ensures
            r.groups@ == groups@,
    {
        IpV6Addr { groups }
    }

    fn zero_run_len(&self, i: usize) -> (r: usize)
        requires
            i <= 8,
        ensures
            r == spec_zero_run_len(self.groups@, i as int),
            i + r <= 8,
        decreases 8 - i,
    {
        if i >= 8 || self.groups[i] != 0 {
            0
        } else {
            1 + self.zero_run_len(i + 1)
        }
    }

    fn best_zero_run(&self, i: usize) -> (r: (usize, usize))
        requires
            i <= 8,
        ensures
            (r.0 as int, r.1 as nat) == spec_best_zero_run(self.groups@, i as int),
            i <= r.0,
            r.0 + r.1 <= 8,
        decreases 8 - i,
    {
        if i >= 8 {
            (i, 0)
        } else {
            let here = self.zero_run_len(i);
            let rest = self.best_zero_run(i + 1);
            if here >= rest.1 {
                (i, here)
            } else {
                rest
            }
        }
    }

    fn groups_display(&self, from: usize, to: usize) -> (s: String)
        requires
            from <= to <= 8,
        ensures
            s@ == spec_groups_display(self.groups@, from as int, to as int),
        decreases to - from,
    {
        proof {
            reveal_strlit(":");
        }
        if from >= to {
            String::new()
        } else if from + 1 == to {
            hex_u16(self.groups[from])
        } else {
            let mut s = hex_u16(self.groups[from]);
            s.append(":");
            let rest = self.groups_display(from + 1, to);
            s.append(rest.as_str());
            s
        }
    }

    /// Renders the address in its canonical text form.
    pub fn to_display_string(&self) -> (s: String)
        ensures
            s@ == self.spec_display(),
    {
        proof {
            reveal_strlit("::ffff:");
            reveal_strlit(".");
            reveal_strlit("::");
        }
        let mapped = self.groups[0] == 0 && self.groups[1] == 0 && self.groups[2] == 0
            && self.groups[3] == 0 && self.groups[4] == 0 && self.groups[5] == 0xffff;
        if mapped {
            let mut s = String::from_str("::ffff:");
            let part = dec_u128((self.groups[6] / 256) as u128);
            s.append(part.as_str());
            s.append(".");
            let part = dec_u128((self.groups[6] % 256) as u128);
            s.append(part.as_str());
            s.append(".");
            let part = dec_u128((self.groups[7] / 256) as u128);
            s.append(part.as_str());
            s.append(".");
            let part = dec_u128((self.groups[7] % 256) as u128);
            s.append(part.as_str());
            proof {
                assert(s@ =~= self.spec_display());
            }
            s
        } else {
            let best = self.best_zero_run(0);
            if best.1 < 2 {
                self.groups_display(0, 8)
            } else {
                let mut s = self.groups_display(0, best.0);
                s.append("::");
                let rest = self.groups_display(best.0 + best.1, 8);
                s.append(rest.as_str());
                proof {
                    assert(s@ =~= self.spec_display());
                }
                s
            }
        }
    }
}

/// An IP address of either family.
#[derive(Clone, Copy, PartialEq, Eq, Debug)]
pub enum IpAddress {
    V4(IpV4Addr),
    V6(IpV6Addr),
}

impl IpAddress {
    /// The bare rendering of the address, without brackets.
    pub open spec fn spec_display(self) -> Seq<char> {
        match self {
            IpAddress::V4(v4) => v4.spec_display(),
            IpAddress::V6(v6) => v6.spec_display(),
        }
    }

    /// Renders the bare address.
    pub fn to_display_string(&self) -> (s: String)
        ensures
            s@ == self.spec_display(),
    {
        match self {
            IpAddress::V4(v4) => v4.to_display_string(),
            IpAddress::V6(v6) => v6.to_display_string(),
        }
    }
}

/// A socket endpoint: address and port.
#[derive(Clone, Copy, PartialEq, Eq, Debug)]
pub struct Endpoint {
    pub ip: IpAddress,
    pub port: u16,
}

impl Endpoint {
    /// `ip:port` rendering: `1.2.3.4:443` for IPv4, the address bracketed
    /// for IPv6, e.g. `[::1]:443`.
    pub open spec fn spec_display(self) -> Seq<char> {
        match self.ip {
            IpAddress::V4(v4) => v4.spec_display() + seq![':'] + spec_dec(self.port as int),
            IpAddress::V6(v6) => seq!['['] + v6.spec_display() + "]:"@ + spec_dec(
                self.port as int,
            ),
        }
    }

    pub fn new(ip: IpAddress, port: u16) -> (r: Endpoint)
        ensures
            r == (Endpoint { ip, port }),
    {
        Endpoint { ip, port }
    }

    /// Renders the endpoint, bracketing an IPv6 address.
    pub fn to_display_string(&self) -> (s: String)
        ensures
            s@ == self.spec_display(),
    {
        proof {
            reveal_strlit(":");
            reveal_strlit("[");
            reveal_strlit("]:");
        }
        match &self.ip {
            IpAddress::V4(v4) => {
                let mut s = v4.to_display_string();
                s.append(":");
                let part = dec_u128(self.port as u128);
                s.append(part.as_str());
                proof {
                    assert(s@ =~= self.spec_display());
                }
                s
            },
            IpAddress::V6(v6) => {
                let mut s = String::from_str("[");
                let part = v6.to_display_string();
                s.append(part.as_str());
                s.append("]:");
                let part = dec_u128(self.port as u128);
                s.append(part.as_str());
                proof {
                    assert(s@ =~= self.spec_display());
                }
                s
            },
        }
    }
}

} // verus!
