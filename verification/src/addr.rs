use vstd::prelude::*;
use vstd::string::StringSliceAdditionalSpecFns;

verus! {

// Byte values of the punctuation the address grammar uses.
pub const DOT: u8 = 46;
pub const COLON: u8 = 58;
pub const LBRACKET: u8 = 91;
pub const RBRACKET: u8 = 93;
pub const PERCENT: u8 = 37;

/// The host part of a parsed bind target.
///
/// An IPv6 host is kept as its 16 address bytes in network order
/// (each 16-bit group big-endian), together with its scope id
/// (0 when the text names none).
#[derive(Debug, Clone, PartialEq)]
pub enum HostIp {
    V4(u8, u8, u8, u8),
    V6(Vec<u8>, u32),
}

/// A parsed bind target: the host address and the port.
#[derive(Debug, Clone, PartialEq)]
pub struct SocketAddress {
    pub ip: HostIp,
    pub port: u16,
}

/// The mathematical shape of a parsed address: the address bytes in
/// network order (4 for IPv4, 16 for IPv6), the port, and the IPv6
/// scope id (0 for IPv4 or when none was written).
pub struct AddrModel {
    pub ip: Seq<u8>,
    pub port: int,
    pub scope: int,
}

impl SocketAddress {
    /// Well-formedness: an IPv6 host holds exactly its 16 address bytes.
    pub open spec fn wf(&self) -> bool {
        match self.ip {
            HostIp::V4(_, _, _, _) => true,
            HostIp::V6(b, _) => b@.len() == 16,
        }
    }

    /// The mathematical value this address denotes.
    pub open spec fn model(&self) -> AddrModel {
        AddrModel {
            ip: match self.ip {
                HostIp::V4(a0, a1, a2, a3) => seq![a0, a1, a2, a3],
                HostIp::V6(b, _) => b@,
            },
            port: self.port as int,
            scope: match self.ip {
                HostIp::V4(_, _, _, _) => 0,
                HostIp::V6(_, sc) => sc as int,
            },
        }
    }

    /// True when the address is an IPv6 one.
    pub fn is_v6(&self) -> (r: bool)
        ensures
            r == (self.ip is V6),
    {
        match self.ip {
            HostIp::V4(_, _, _, _) => false,
            HostIp::V6(_, _) => true,
        }
    }
}

/// Index of the first occurrence of `b` in `s`, or -1 if `b` does not occur.
pub open spec fn find_byte(s: Seq<u8>, b: u8) -> int
    decreases s.len(),
{
    if s.len() == 0 {
        -1
    } else if s[0] == b {
        0
    } else if find_byte(s.drop_first(), b) == -1 {
        -1
    } else {
        find_byte(s.drop_first(), b) + 1
    }
}

/// `find_byte` returns the least index holding `b`, or -1 when none does.
pub proof fn lemma_find_byte(s: Seq<u8>, b: u8)
    ensures
        find_byte(s, b) == -1 ==> forall|k: int| 0 <= k < s.len() ==> s[k] != b,
        find_byte(s, b) != -1 ==> {
            &&& 0 <= find_byte(s, b) < s.len()
            &&& s[find_byte(s, b)] == b
            &&& forall|k: int| 0 <= k < find_byte(s, b) ==> s[k] != b
        },
    decreases s.len(),
{
    if s.len() > 0 && s[0] != b {
        let t = s.drop_first();
        lemma_find_byte(t, b);
        assert forall|k: int| 1 <= k < s.len() implies s[k] == t[k - 1] by {}
        if find_byte(t, b) == -1 {
            assert(find_byte(s, b) == -1);
            assert forall|k: int| 0 <= k < s.len() implies s[k] != b by {
                if k > 0 {
                    assert(t[k - 1] != b);
                }
            }
        } else {
            assert(find_byte(s, b) == find_byte(t, b) + 1);
            assert(s[find_byte(s, b)] == t[find_byte(t, b)]);
            assert forall|k: int| 0 <= k < find_byte(s, b) implies s[k] != b by {
                if k > 0 {
                    assert(t[k - 1] != b);
                }
            }
        }
    }
}

/// Scanner state for one decimal number (used for the port).
#[derive(Debug, Clone, Copy, PartialEq, Eq, Structural)]
pub struct DecSt {
    pub ok: bool,
    pub val: u32,
    pub ndig: u8,
}

/// The least value `n` decimal digits cannot write.
pub open spec fn dec_bound(n: u8) -> int {
    if n == 0 {
        1
    } else if n == 1 {
        10
    } else if n == 2 {
        100
    } else if n == 3 {
        1000
    } else if n == 4 {
        10000
    } else {
        100000
    }
}

/// Bounds every reachable scanner state keeps: at most 5 digits seen,
/// and the value below what the digits seen can write.
pub open spec fn dec_wf(st: DecSt) -> bool {
    st.ok ==> st.ndig <= 5 && st.val < dec_bound(st.ndig)
}

pub open spec fn dec_init() -> DecSt {
    DecSt { ok: true, val: 0, ndig: 0 }
}

/// One step of the decimal scanner: a digit extends the value; more
/// than 5 digits, or any other byte, is a failure.
pub open spec fn dec_step(st: DecSt, b: u8) -> DecSt {
    if !st.ok {
        st
    } else if 48 <= b <= 57 {
        if st.ndig >= 5 {
            DecSt { ok: false, ..st }
        } else {
            DecSt { ok: true, val: (st.val * 10 + (b - 48)) as u32, ndig: (st.ndig + 1) as u8 }
        }
    } else {
        DecSt { ok: false, ..st }
    }
}

/// The scanner run over a whole byte sequence.
pub open spec fn dec_run(s: Seq<u8>) -> DecSt
    decreases s.len(),
{
    if s.len() == 0 {
        dec_init()
    } else {
        dec_step(dec_run(s.drop_last()), s.last())
    }
}

/// The number a byte sequence denotes, if it is 1 to 5 decimal digits
/// whose value is at most `max`.
pub open spec fn dec_final(st: DecSt, max: u32) -> Option<u32> {
    if st.ok && 1 <= st.ndig && st.val <= max {
        Some(st.val)
    } else {
        None
    }
}

/// Scanner state for an IPv6 scope id: a wider decimal number, up to
/// the 10 digits a 32-bit value can take.
#[derive(Debug, Clone, Copy, PartialEq, Eq, Structural)]
pub struct ScopeSt {
    pub ok: bool,
    pub val: u64,
    pub ndig: u8,
}

/// The least value `n` decimal digits cannot write, up to 10 digits.
pub open spec fn scope_bound(n: u8) -> int {
    if n == 0 {
        1
    } else if n == 1 {
        10
    } else if n == 2 {
        100
    } else if n == 3 {
        1000
    } else if n == 4 {
        10000
    } else if n == 5 {
        100000
    } else if n == 6 {
        1000000
    } else if n == 7 {
        10000000
    } else if n == 8 {
        100000000
    } else if n == 9 {
        1000000000
    } else {
        10000000000
    }
}

pub open spec fn scope_wf(st: ScopeSt) -> bool {
    st.ok ==> st.ndig <= 10 && st.val < scope_bound(st.ndig)
}

/// One step of the scope scanner: digits only, at most 10 of them.
pub open spec fn scope_step(st: ScopeSt, b: u8) -> ScopeSt {
    if !st.ok {
        st
    } else if 48 <= b <= 57 {
        if st.ndig >= 10 {
            ScopeSt { ok: false, ..st }
        } else {
            ScopeSt { ok: true, val: (st.val * 10 + (b - 48)) as u64, ndig: (st.ndig + 1) as u8 }
        }
    } else {
        ScopeSt { ok: false, ..st }
    }
}

pub open spec fn scope_run(s: Seq<u8>) -> ScopeSt
    decreases s.len(),
{
    if s.len() == 0 {
        ScopeSt { ok: true, val: 0, ndig: 0 }
    } else {
        scope_step(scope_run(s.drop_last()), s.last())
    }
}

/// The scope id a byte sequence denotes: 1 to 10 decimal digits whose
/// value fits 32 bits.
pub open spec fn scope_final(st: ScopeSt) -> Option<u32> {
    if st.ok && 1 <= st.ndig && st.val <= 0xFFFF_FFFF {
        Some(st.val as u32)
    } else {
        None
    }
}

/// Run the scope scanner over a whole slice.
fn scan_scope(v: &[u8]) -> (r: ScopeSt)
    ensures
        r == scope_run(v@),
        scope_wf(r),
{
    let n: usize = v.len();
    let mut st: ScopeSt = ScopeSt { ok: true, val: 0, ndig: 0 };
    assert(v@.take(0) =~= Seq::<u8>::empty());
    let mut i: usize = 0;
    while i < n
        invariant
            n == v@.len(),
            0 <= i <= n,
            st == scope_run(v@.take(i as int)),
            scope_wf(st),
        decreases n - i,
    {
        let b: u8 = *vstd::slice::slice_index_get(v, i);
        let next: ScopeSt = if !st.ok {
            st
        } else if 48 <= b && b <= 57 {
            if st.ndig >= 10 {
                ScopeSt { ok: false, ..st }
            } else {
                ScopeSt { ok: true, val: st.val * 10 + ((b - 48) as u64), ndig: st.ndig + 1 }
            }
        } else {
            ScopeSt { ok: false, ..st }
        };
        assert(next == scope_step(st, b));
        proof {
            assert(v@.take(i + 1).drop_last() =~= v@.take(i as int));
            assert(v@.take(i + 1).last() == v@[i as int]);
        }
        st = next;
        i = i + 1;
    }
    assert(v@.take(n as int) =~= v@);
    st
}

/// Scanner state for a dotted-quad IPv4 host.
#[derive(Debug, Clone, Copy, PartialEq, Eq, Structural)]
pub struct V4St {
    pub ok: bool,
    /// Completed fields, in order.
    pub a0: u8,
    pub a1: u8,
    pub a2: u8,
    /// Number of completed (dot-terminated) fields.
    pub nparts: u8,
    /// Value of the field being read.
    pub cur: u32,
    /// Digits of the field being read.
    pub ndig: u8,
}

pub open spec fn v4_wf(st: V4St) -> bool {
    st.ok ==> st.cur <= 255 && st.ndig <= 3 && st.nparts <= 3
}

pub open spec fn v4_init() -> V4St {
    V4St { ok: true, a0: 0, a1: 0, a2: 0, nparts: 0, cur: 0, ndig: 0 }
}

/// One step of the IPv4 scanner. A field is 1 to 3 decimal digits with
/// value at most 255 and no leading zero (a lone `0` is fine); exactly
/// three dots separate the four fields.
pub open spec fn v4_step(st: V4St, b: u8) -> V4St {
    if !st.ok {
        st
    } else if 48 <= b <= 57 {
        if st.ndig >= 3 || (st.ndig >= 1 && st.cur == 0) || st.cur * 10 + (b - 48) > 255 {
            V4St { ok: false, ..st }
        } else {
            V4St {
                cur: (st.cur * 10 + (b - 48)) as u32,
                ndig: (st.ndig + 1) as u8,
                ..st
            }
        }
    } else if b == DOT {
        if st.ndig == 0 || st.nparts >= 3 {
            V4St { ok: false, ..st }
        } else if st.nparts == 0 {
            V4St { a0: st.cur as u8, nparts: 1, cur: 0, ndig: 0, ..st }
        } else if st.nparts == 1 {
            V4St { a1: st.cur as u8, nparts: 2, cur: 0, ndig: 0, ..st }
        } else {
            V4St { a2: st.cur as u8, nparts: 3, cur: 0, ndig: 0, ..st }
        }
    } else {
        V4St { ok: false, ..st }
    }
}

pub open spec fn v4_run(s: Seq<u8>) -> V4St
    decreases s.len(),
{
    if s.len() == 0 {
        v4_init()
    } else {
        v4_step(v4_run(s.drop_last()), s.last())
    }
}

/// The four address bytes a host part denotes, if it is a dotted quad.
pub open spec fn v4_final(st: V4St) -> Option<(u8, u8, u8, u8)> {
    if st.ok && st.nparts == 3 && st.ndig >= 1 {
        Some((st.a0, st.a1, st.a2, st.cur as u8))
    } else {
        None
    }
}

/// Where the IPv6 scanner stands between two bytes.
#[derive(Debug, Clone, Copy, PartialEq, Eq, Structural)]
pub enum V6Mode {
    /// Nothing read yet.
    Begin,
    /// A colon as the very first byte; only a second colon may follow.
    ColonAtStart,
    /// Inside a hex group.
    InGroup,
    /// Right after a single separating colon.
    AfterColon,
    /// Right after the one `::` compression.
    AfterComp,
    /// Inside the trailing IPv4-mapped dotted quad.
    InQuad,
}

/// The value of a hex digit byte, or 16 for any other byte.
pub open spec fn hex_val(b: u8) -> u8 {
    if 48 <= b <= 57 {
        (b - 48) as u8
    } else if 97 <= b <= 102 {
        (b - 87) as u8
    } else if 65 <= b <= 70 {
        (b - 55) as u8
    } else {
        16
    }
}

/// Mathematical state of the IPv6 scanner: completed groups before and
/// after the one `::` compression, the group being read (as hex and,
/// where its bytes allow, as a decimal IPv4 field), and the trailing
/// dotted quad once one began.
pub struct V6StSpec {
    pub ok: bool,
    pub mode: V6Mode,
    pub acc: u32,
    pub ndig: u8,
    /// The current group's value read as decimal — the first field of
    /// a trailing dotted quad, should a dot follow.
    pub dacc: u32,
    /// Whether the current group reads as a valid IPv4 field so far.
    pub dok: bool,
    pub comp: bool,
    pub head: Seq<u16>,
    pub tail: Seq<u16>,
    /// The trailing dotted quad, scanned by the IPv4 rules.
    pub quad: V4St,
}

/// The least value `n` hex digits cannot write.
pub open spec fn hex_bound(n: u8) -> int {
    if n == 0 {
        1
    } else if n == 1 {
        16
    } else if n == 2 {
        256
    } else if n == 3 {
        4096
    } else {
        65536
    }
}

pub open spec fn v6_wf(st: V6StSpec) -> bool {
    &&& (st.ok ==> st.ndig <= 4 && st.acc < hex_bound(st.ndig))
    &&& (st.ok && st.dok ==> st.dacc <= 255)
    &&& (st.ok && st.mode is InQuad ==> st.quad.ok && v4_wf(st.quad))
}

pub open spec fn v6_init() -> V6StSpec {
    V6StSpec {
        ok: true,
        mode: V6Mode::Begin,
        acc: 0,
        ndig: 0,
        dacc: 0,
        dok: false,
        comp: false,
        head: Seq::empty(),
        tail: Seq::empty(),
        quad: v4_init(),
    }
}

/// Whether `b` is a decimal digit byte.
pub open spec fn is_dec(b: u8) -> bool {
    48 <= b <= 57
}

/// One step of the IPv6 scanner: hex groups of at most 4 digits,
/// single colons between groups, at most one `::` compression, and an
/// optional trailing dotted quad (the IPv4-mapped form) whose first
/// field is the current group reread as decimal.
pub open spec fn v6_step(st: V6StSpec, b: u8) -> V6StSpec {
    if !st.ok {
        st
    } else if st.mode is InQuad {
        let q = v4_step(st.quad, b);
        if q.ok {
            V6StSpec { quad: q, ..st }
        } else {
            V6StSpec { ok: false, ..st }
        }
    } else if hex_val(b) < 16 {
        match st.mode {
            V6Mode::ColonAtStart => V6StSpec { ok: false, ..st },
            V6Mode::InGroup => if st.ndig >= 4 {
                V6StSpec { ok: false, ..st }
            } else {
                let keeps_dec = st.dok && is_dec(b) && st.dacc != 0 && st.dacc * 10 + (b - 48)
                    <= 255;
                V6StSpec {
                    acc: (st.acc * 16 + hex_val(b)) as u32,
                    ndig: (st.ndig + 1) as u8,
                    dacc: if keeps_dec {
                        (st.dacc * 10 + (b - 48)) as u32
                    } else {
                        0
                    },
                    dok: keeps_dec,
                    ..st
                }
            },
            _ => V6StSpec {
                mode: V6Mode::InGroup,
                acc: hex_val(b) as u32,
                ndig: 1,
                dacc: if is_dec(b) {
                    (b - 48) as u32
                } else {
                    0
                },
                dok: is_dec(b),
                ..st
            },
        }
    } else if b == COLON {
        match st.mode {
            V6Mode::Begin => V6StSpec { mode: V6Mode::ColonAtStart, ..st },
            V6Mode::ColonAtStart => V6StSpec { mode: V6Mode::AfterComp, comp: true, ..st },
            V6Mode::InGroup => if st.comp {
                V6StSpec {
                    mode: V6Mode::AfterColon,
                    tail: st.tail.push(st.acc as u16),
                    acc: 0,
                    ndig: 0,
                    dacc: 0,
                    dok: false,
                    ..st
                }
            } else {
                V6StSpec {
                    mode: V6Mode::AfterColon,
                    head: st.head.push(st.acc as u16),
                    acc: 0,
                    ndig: 0,
                    dacc: 0,
                    dok: false,
                    ..st
                }
            },
            V6Mode::AfterColon => if st.comp {
                V6StSpec { ok: false, ..st }
            } else {
                V6StSpec { mode: V6Mode::AfterComp, comp: true, ..st }
            },
            _ => V6StSpec { ok: false, ..st },
        }
    } else if b == DOT {
        if st.mode is InGroup && st.dok {
            V6StSpec {
                mode: V6Mode::InQuad,
                quad: V4St { ok: true, a0: st.dacc as u8, a1: 0, a2: 0, nparts: 1, cur: 0, ndig: 0 },
                ..st
            }
        } else {
            V6StSpec { ok: false, ..st }
        }
    } else {
        V6StSpec { ok: false, ..st }
    }
}

pub open spec fn v6_run(s: Seq<u8>) -> V6StSpec
    decreases s.len(),
{
    if s.len() == 0 {
        v6_init()
    } else {
        v6_step(v6_run(s.drop_last()), s.last())
    }
}

/// `n` zero groups.
pub open spec fn zero_groups(n: int) -> Seq<u16> {
    Seq::new(n as nat, |i: int| 0u16)
}

/// The groups denoted once scanning ends: the compression, when present,
/// stands for at least one zero group; without it exactly 8 groups are owed.
pub open spec fn v6_groups(head: Seq<u16>, tail: Seq<u16>, comp: bool) -> Option<Seq<u16>> {
    if comp {
        if head.len() + tail.len() <= 7 {
            Some(head + zero_groups(8 - head.len() - tail.len()) + tail)
        } else {
            None
        }
    } else {
        if head.len() == 8 {
            Some(head)
        } else {
            None
        }
    }
}

/// The two groups a completed dotted quad stands for, if it is one.
pub open spec fn quad_groups(q: V4St) -> Option<(u16, u16)> {
    match v4_final(q) {
        Some(t) => Some(((t.0 * 256 + t.1) as u16, (t.2 * 256 + t.3) as u16)),
        None => None,
    }
}

/// The 8 groups an IPv6 host part denotes, if it is well formed.
pub open spec fn v6_final(st: V6StSpec) -> Option<Seq<u16>> {
    if !st.ok {
        None
    } else {
        match st.mode {
            V6Mode::InGroup => if st.comp {
                v6_groups(st.head, st.tail.push(st.acc as u16), true)
            } else {
                v6_groups(st.head.push(st.acc as u16), st.tail, false)
            },
            V6Mode::AfterComp => v6_groups(st.head, st.tail, true),
            V6Mode::InQuad => match quad_groups(st.quad) {
                Some(g) => if st.comp {
                    v6_groups(st.head, st.tail.push(g.0).push(g.1), true)
                } else {
                    v6_groups(st.head.push(g.0).push(g.1), st.tail, false)
                },
                None => None,
            },
            _ => None,
        }
    }
}

/// The 16 address bytes of a group sequence, each group big-endian.
pub open spec fn groups_bytes(g: Seq<u16>) -> Seq<u8>
    decreases g.len(),
{
    if g.len() == 0 {
        Seq::empty()
    } else {
        groups_bytes(g.drop_last()) + seq![(g.last() / 256) as u8, (g.last() % 256) as u8]
    }
}

/// Each group writes exactly two bytes.
pub proof fn lemma_groups_bytes_len(g: Seq<u16>)
    ensures
        groups_bytes(g).len() == 2 * g.len(),
    decreases g.len(),
{
    if g.len() > 0 {
        lemma_groups_bytes_len(g.drop_last());
    }
}

/// What `parse_socket_addr` returns, as a function of the input bytes:
/// either `[v6groups]:port` — with an optional `%scope` before the
/// closing bracket — or `v4quad:port`, splitting at the first closing
/// bracket or, without brackets, at the first colon.
pub open spec fn spec_parse_addr(s: Seq<u8>) -> Option<AddrModel> {
    if s.len() == 0 {
        None
    } else if s[0] == LBRACKET {
        let j = find_byte(s, RBRACKET);
        if j == -1 || j + 1 >= s.len() || s[j + 1] != COLON {
            None
        } else {
            let inner0 = s.subrange(1, j);
            let m = find_byte(inner0, PERCENT);
            let inner = if m == -1 {
                inner0
            } else {
                inner0.take(m)
            };
            let sc = if m == -1 {
                Some(0u32)
            } else {
                scope_final(scope_run(inner0.subrange(m + 1, inner0.len() as int)))
            };
            let g = v6_final(v6_run(inner));
            let p = dec_final(dec_run(s.subrange(j + 2, s.len() as int)), 65535);
            if g is Some && p is Some && sc is Some {
                Some(
                    AddrModel {
                        ip: groups_bytes(g->Some_0),
                        port: p->Some_0 as int,
                        scope: sc->Some_0 as int,
                    },
                )
            } else {
                None
            }
        }
    } else {
        let k = find_byte(s, COLON);
        if k == -1 {
            None
        } else {
            let h = v4_final(v4_run(s.take(k)));
            let p = dec_final(dec_run(s.subrange(k + 1, s.len() as int)), 65535);
            match (h, p) {
                (Some(q), Some(pv)) => Some(
                    AddrModel { ip: seq![q.0, q.1, q.2, q.3], port: pv as int, scope: 0 },
                ),
                _ => None,
            }
        }
    }
}

/// Index of the first occurrence of `b` in `v`, if any.
fn find_byte_in(v: &[u8], b: u8) -> (r: Option<usize>)
    ensures
        match r {
            Some(i) => find_byte(v@, b) == i,
            None => find_byte(v@, b) == -1,
        },
{
    proof {
        lemma_find_byte(v@, b);
    }
    let n: usize = v.len();
    let mut i: usize = 0;
    while i < n
        invariant
            n == v@.len(),
            0 <= i <= n,
            forall|k: int| 0 <= k < i ==> v@[k] != b,
            find_byte(v@, b) == -1 || (0 <= find_byte(v@, b) < n && v@[find_byte(v@, b)] == b
                && forall|k: int| 0 <= k < find_byte(v@, b) ==> v@[k] != b),
        decreases n - i,
    {
        if *vstd::slice::slice_index_get(v, i) == b {
            proof {
                lemma_find_byte(v@, b);
                assert(v@[i as int] == b);
                assert(find_byte(v@, b) != -1);
                if find_byte(v@, b) < i {
                    assert(v@[find_byte(v@, b)] != b);
                } else if find_byte(v@, b) > i {
                    assert(v@[i as int] != b);
                }
            }
            return Some(i);
        }
        i = i + 1;
    }
    None
}

/// Run the decimal scanner over a whole slice.
fn scan_dec(v: &[u8]) -> (r: DecSt)
    ensures
        r == dec_run(v@),
        dec_wf(r),
{
    let n: usize = v.len();
    let mut st: DecSt = DecSt { ok: true, val: 0, ndig: 0 };
    assert(v@.take(0) =~= Seq::<u8>::empty());
    let mut i: usize = 0;
    while i < n
        invariant
            n == v@.len(),
            0 <= i <= n,
            st == dec_run(v@.take(i as int)),
            dec_wf(st),
        decreases n - i,
    {
        let b: u8 = *vstd::slice::slice_index_get(v, i);
        let next: DecSt = if !st.ok {
            st
        } else if 48 <= b && b <= 57 {
            if st.ndig >= 5 {
                DecSt { ok: false, ..st }
            } else {
                DecSt { ok: true, val: st.val * 10 + ((b - 48) as u32), ndig: st.ndig + 1 }
            }
        } else {
            DecSt { ok: false, ..st }
        };
        assert(next == dec_step(st, b));
        proof {
            assert(v@.take(i + 1).drop_last() =~= v@.take(i as int));
            assert(v@.take(i + 1).last() == v@[i as int]);
        }
        st = next;
        i = i + 1;
    }
    assert(v@.take(n as int) =~= v@);
    st
}

/// One executable step of the IPv4 scanner.
fn v4_step_x(st: V4St, b: u8) -> (r: V4St)
    requires
        v4_wf(st),
    ensures
        r == v4_step(st, b),
        v4_wf(r),
{
    if !st.ok {
        st
    } else if 48 <= b && b <= 57 {
        if st.ndig >= 3 || (st.ndig >= 1 && st.cur == 0) || st.cur * 10 + ((b - 48) as u32)
            > 255 {
            V4St { ok: false, ..st }
        } else {
            V4St { cur: st.cur * 10 + ((b - 48) as u32), ndig: st.ndig + 1, ..st }
        }
    } else if b == DOT {
        if st.ndig == 0 || st.nparts >= 3 {
            V4St { ok: false, ..st }
        } else if st.nparts == 0 {
            V4St { a0: st.cur as u8, nparts: 1, cur: 0, ndig: 0, ..st }
        } else if st.nparts == 1 {
            V4St { a1: st.cur as u8, nparts: 2, cur: 0, ndig: 0, ..st }
        } else {
            V4St { a2: st.cur as u8, nparts: 3, cur: 0, ndig: 0, ..st }
        }
    } else {
        V4St { ok: false, ..st }
    }
}

/// Run the IPv4 scanner over a whole slice.
fn scan_v4(v: &[u8]) -> (r: V4St)
    ensures
        r == v4_run(v@),
        v4_wf(r),
{
    let n: usize = v.len();
    let mut st: V4St = V4St { ok: true, a0: 0, a1: 0, a2: 0, nparts: 0, cur: 0, ndig: 0 };
    assert(v@.take(0) =~= Seq::<u8>::empty());
    let mut i: usize = 0;
    while i < n
        invariant
            n == v@.len(),
            0 <= i <= n,
            st == v4_run(v@.take(i as int)),
            v4_wf(st),
        decreases n - i,
    {
        let b: u8 = *vstd::slice::slice_index_get(v, i);
        st = v4_step_x(st, b);
        proof {
            assert(v@.take(i + 1).drop_last() =~= v@.take(i as int));
            assert(v@.take(i + 1).last() == v@[i as int]);
        }
        i = i + 1;
    }
    assert(v@.take(n as int) =~= v@);
    st
}

/// Executable state of the IPv6 scanner.
struct V6St {
    ok: bool,
    mode: V6Mode,
    acc: u32,
    ndig: u8,
    dacc: u32,
    dok: bool,
    comp: bool,
    head: Vec<u16>,
    tail: Vec<u16>,
    quad: V4St,
}

impl V6St {
    spec fn model(&self) -> V6StSpec {
        V6StSpec {
            ok: self.ok,
            mode: self.mode,
            acc: self.acc,
            ndig: self.ndig,
            dacc: self.dacc,
            dok: self.dok,
            comp: self.comp,
            head: self.head@,
            tail: self.tail@,
            quad: self.quad,
        }
    }
}

/// The value of a hex digit byte, or 16 for any other byte.
fn hex_val_of(b: u8) -> (r: u8)
    ensures
        r == hex_val(b),
{
    if 48 <= b && b <= 57 {
        b - 48
    } else if 97 <= b && b <= 102 {
        b - 87
    } else if 65 <= b && b <= 70 {
        b - 55
    } else {
        16
    }
}

/// Run the IPv6 scanner over a whole slice.
fn scan_v6(v: &[u8]) -> (r: V6St)
    ensures
        r.model() == v6_run(v@),
        v6_wf(r.model()),
{
    let n: usize = v.len();
    let mut st: V6St = V6St {
        ok: true,
        mode: V6Mode::Begin,
        acc: 0,
        ndig: 0,
        dacc: 0,
        dok: false,
        comp: false,
        head: Vec::new(),
        tail: Vec::new(),
        quad: V4St { ok: true, a0: 0, a1: 0, a2: 0, nparts: 0, cur: 0, ndig: 0 },
    };
    assert(v@.take(0) =~= Seq::<u8>::empty());
    assert(st.model() =~= v6_init());
    let mut i: usize = 0;
    while i < n
        invariant
            n == v@.len(),
            0 <= i <= n,
            st.model() == v6_run(v@.take(i as int)),
            v6_wf(st.model()),
        decreases n - i,
    {
        let b: u8 = *vstd::slice::slice_index_get(v, i);
        let ghost pre = st.model();
        let h: u8 = hex_val_of(b);
        let in_quad: bool = match st.mode {
            V6Mode::InQuad => true,
            _ => false,
        };
        if !st.ok {
        } else if in_quad {
            let q: V4St = v4_step_x(st.quad, b);
            if q.ok {
                st.quad = q;
            } else {
                st.ok = false;
            }
        } else if h < 16 {
            match st.mode {
                V6Mode::ColonAtStart => {
                    st.ok = false;
                },
                V6Mode::InGroup => {
                    if st.ndig >= 4 {
                        st.ok = false;
                    } else {
                        let keeps_dec: bool = st.dok && 48 <= b && b <= 57 && st.dacc != 0
                            && st.dacc * 10 + ((b - 48) as u32) <= 255;
                        st.acc = st.acc * 16 + (h as u32);
                        st.ndig = st.ndig + 1;
                        if keeps_dec {
                            st.dacc = st.dacc * 10 + ((b - 48) as u32);
                        } else {
                            st.dacc = 0;
                        }
                        st.dok = keeps_dec;
                    }
                },
                _ => {
                    st.mode = V6Mode::InGroup;
                    st.acc = h as u32;
                    st.ndig = 1;
                    if 48 <= b && b <= 57 {
                        st.dacc = (b - 48) as u32;
                        st.dok = true;
                    } else {
                        st.dacc = 0;
                        st.dok = false;
                    }
                },
            }
        } else if b == COLON {
            match st.mode {
                V6Mode::Begin => {
                    st.mode = V6Mode::ColonAtStart;
                },
                V6Mode::ColonAtStart => {
                    st.mode = V6Mode::AfterComp;
                    st.comp = true;
                },
                V6Mode::InGroup => {
                    if st.comp {
                        st.tail.push(st.acc as u16);
                    } else {
                        st.head.push(st.acc as u16);
                    }
                    st.mode = V6Mode::AfterColon;
                    st.acc = 0;
                    st.ndig = 0;
                    st.dacc = 0;
                    st.dok = false;
                },
                V6Mode::AfterColon => {
                    if st.comp {
                        st.ok = false;
                    } else {
                        st.mode = V6Mode::AfterComp;
                        st.comp = true;
                    }
                },
                _ => {
                    st.ok = false;
                },
            }
        } else if b == DOT {
            let go: bool = match st.mode {
                V6Mode::InGroup => st.dok,
                _ => false,
            };
            if go {
                st.mode = V6Mode::InQuad;
                st.quad = V4St {
                    ok: true,
                    a0: st.dacc as u8,
                    a1: 0,
                    a2: 0,
                    nparts: 1,
                    cur: 0,
                    ndig: 0,
                };
            } else {
                st.ok = false;
            }
        } else {
            st.ok = false;
        }
        assert(st.model() =~= v6_step(pre, b));
        proof {
            assert(v@.take(i + 1).drop_last() =~= v@.take(i as int));
            assert(v@.take(i + 1).last() == v@[i as int]);
        }
        i = i + 1;
    }
    assert(v@.take(n as int) =~= v@);
    st
}

/// Assemble the final group list from the scanner's parts.
fn v6_fill(head: Vec<u16>, tail: Vec<u16>, comp: bool) -> (r: Option<Vec<u16>>)
    ensures
        match r {
            Some(g) => v6_groups(head@, tail@, comp) == Some(g@) && g@.len() == 8,
            None => v6_groups(head@, tail@, comp) is None,
        },
{
    if comp {
        if head.len() <= 7 && tail.len() <= 7 - head.len() {
            let ghost h0 = head@;
            let zn: usize = 8 - head.len() - tail.len();
            let mut out: Vec<u16> = head;
            let mut i: usize = 0;
            while i < zn
                invariant
                    0 <= i <= zn,
                    out@ =~= h0 + zero_groups(i as int),
                decreases zn - i,
            {
                out.push(0);
                assert(zero_groups(i + 1) =~= zero_groups(i as int).push(0u16));
                i = i + 1;
            }
            let mut j: usize = 0;
            let tn: usize = tail.len();
            while j < tn
                invariant
                    0 <= j <= tn,
                    tn == tail@.len(),
                    out@ =~= h0 + zero_groups(zn as int) + tail@.take(j as int),
                decreases tn - j,
            {
                out.push(tail[j]);
                assert(tail@.take(j + 1) =~= tail@.take(j as int).push(tail@[j as int]));
                j = j + 1;
            }
            assert(tail@.take(tn as int) =~= tail@);
            Some(out)
        } else {
            None
        }
    } else {
        if head.len() == 8 {
            Some(head)
        } else {
            None
        }
    }
}

/// The 16 address bytes of a group list, each group big-endian.
fn groups_to_bytes(g: &Vec<u16>) -> (r: Vec<u8>)
    ensures
        r@ == groups_bytes(g@),
{
    let n: usize = g.len();
    let mut out: Vec<u8> = Vec::new();
    assert(g@.take(0) =~= Seq::<u16>::empty());
    let mut i: usize = 0;
    while i < n
        invariant
            n == g@.len(),
            0 <= i <= n,
            out@ =~= groups_bytes(g@.take(i as int)),
        decreases n - i,
    {
        let x: u16 = g[i];
        out.push((x / 256) as u8);
        out.push((x % 256) as u8);
        proof {
            assert(g@.take(i + 1).drop_last() =~= g@.take(i as int));
            assert(g@.take(i + 1).last() == g@[i as int]);
        }
        i = i + 1;
    }
    assert(g@.take(n as int) =~= g@);
    out
}

/// Parse a textual bind target, `host:port`, as an IPv4 or IPv6 endpoint.
///
/// The grammar: an IPv4 host is a dotted quad of 1-3 digit decimal
/// fields each at most 255; an IPv6 host stands in brackets and is hex
/// groups of at most 4 digits separated by single colons, with at most
/// one `::` standing for the missing zero groups; the port is 1-5
/// decimal digits, at most 65535.
pub fn parse_socket_addr(s: &str) -> (r: Option<SocketAddress>)
    ensures
        match r {
            Some(sa) => sa.wf() && spec_parse_addr(s.spec_bytes()) == Some(sa.model()),
            None => spec_parse_addr(s.spec_bytes()) is None,
        },
{
    let v: &[u8] = s.as_bytes();
    let n: usize = v.len();
    if n == 0 {
        return None;
    }
    if *vstd::slice::slice_index_get(v, 0) == LBRACKET {
        let j: usize = match find_byte_in(v, RBRACKET) {
            Some(j) => j,
            None => {
                return None;
            },
        };
        proof {
            lemma_find_byte(v@, RBRACKET);
        }
        if j + 1 >= n {
            return None;
        }
        if *vstd::slice::slice_index_get(v, j + 1) != COLON {
            return None;
        }
        let inner0: &[u8] = vstd::slice::slice_subrange(v, 1, j);
        let ps: &[u8] = vstd::slice::slice_subrange(v, j + 2, n);
        let pst: DecSt = scan_dec(ps);
        let mut scope: Option<u32> = Some(0);
        let inner: &[u8] = match find_byte_in(inner0, PERCENT) {
            None => inner0,
            Some(m) => {
                proof {
                    lemma_find_byte(inner0@, PERCENT);
                }
                let sc_part: &[u8] = vstd::slice::slice_subrange(inner0, m + 1, inner0.len());
                let sst: ScopeSt = scan_scope(sc_part);
                scope = if sst.ok && sst.ndig >= 1 && sst.val <= 0xFFFF_FFFF {
                    Some(sst.val as u32)
                } else {
                    None
                };
                vstd::slice::slice_subrange(inner0, 0, m)
            },
        };
        let st6: V6St = scan_v6(inner);
        let ghost stm = st6.model();
        let groups: Option<Vec<u16>> = if !st6.ok {
            None
        } else {
            match st6.mode {
                V6Mode::InGroup => {
                    let mut head = st6.head;
                    let mut tail = st6.tail;
                    if st6.comp {
                        tail.push(st6.acc as u16);
                    } else {
                        head.push(st6.acc as u16);
                    }
                    v6_fill(head, tail, st6.comp)
                },
                V6Mode::AfterComp => v6_fill(st6.head, st6.tail, true),
                V6Mode::InQuad => {
                    if st6.quad.ok && st6.quad.nparts == 3 && st6.quad.ndig >= 1 {
                        let g1: u16 = (st6.quad.a0 as u16) * 256 + (st6.quad.a1 as u16);
                        let g2: u16 = (st6.quad.a2 as u16) * 256 + (st6.quad.cur as u16);
                        let mut head = st6.head;
                        let mut tail = st6.tail;
                        if st6.comp {
                            tail.push(g1);
                            tail.push(g2);
                        } else {
                            head.push(g1);
                            head.push(g2);
                        }
                        v6_fill(head, tail, st6.comp)
                    } else {
                        None
                    }
                },
                _ => None,
            }
        };
        assert(match groups {
            Some(g) => v6_final(stm) == Some(g@),
            None => v6_final(stm) is None,
        });
        match groups {
            Some(g) => {
                match scope {
                    Some(sc) => {
                        if pst.ok && pst.ndig >= 1 && pst.val <= 65535 {
                            let bytes: Vec<u8> = groups_to_bytes(&g);
                            proof {
                                lemma_groups_bytes_len(g@);
                            }
                            Some(SocketAddress { ip: HostIp::V6(bytes, sc), port: pst.val as u16 })
                        } else {
                            None
                        }
                    },
                    None => None,
                }
            },
            None => None,
        }
    } else {
        let k: usize = match find_byte_in(v, COLON) {
            Some(k) => k,
            None => {
                return None;
            },
        };
        proof {
            lemma_find_byte(v@, COLON);
        }
        let host: &[u8] = vstd::slice::slice_subrange(v, 0, k);
        let ps: &[u8] = vstd::slice::slice_subrange(v, k + 1, n);
        let hst: V4St = scan_v4(host);
        let pst: DecSt = scan_dec(ps);
        assert(host@ =~= s.spec_bytes().take(k as int));
        if hst.ok && hst.nparts == 3 && hst.ndig >= 1 && pst.ok && pst.ndig >= 1 && pst.val
            <= 65535 {
            Some(
                SocketAddress {
                    ip: HostIp::V4(hst.a0, hst.a1, hst.a2, hst.cur as u8),
                    port: pst.val as u16,
                },
            )
        } else {
            None
        }
    }
}

} // verus!
