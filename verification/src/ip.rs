//! Textual IP addresses: IPv4 dotted quads, IPv6 hexadecimal groups, and private ranges.
use crate::text::{char_vecs_view, chars_of, find_from, first_occurrence_from, occurs_at, split_chars, split_spec};
use vstd::prelude::*;

verus! {

broadcast use vstd::seq::group_seq_axioms;

/// An ASCII decimal digit.
pub open spec fn is_dec(c: char) -> bool {
    '0' <= c && c <= '9'
}

/// The value of an ASCII hexadecimal digit, or -1.
pub open spec fn hex_val(c: char) -> int {
    if '0' <= c && c <= '9' {
        c as int - '0' as int
    } else if 'a' <= c && c <= 'f' {
        c as int - 'a' as int + 10
    } else if 'A' <= c && c <= 'F' {
        c as int - 'A' as int + 10
    } else {
        -1
    }
}

/// The decimal value of a digit string.
pub open spec fn dec_value(s: Seq<char>) -> int
    decreases s.len(),
{
    if s.len() == 0 {
        0
    } else {
        dec_value(s.drop_last()) * 10 + (s.last() as int - '0' as int)
    }
}

/// The hexadecimal value of a digit string.
pub open spec fn hex_value(s: Seq<char>) -> int
    decreases s.len(),
{
    if s.len() == 0 {
        0
    } else {
        hex_value(s.drop_last()) * 16 + hex_val(s.last())
    }
}

/// An IPv4 octet as `Ipv4Addr::from_str` accepts it: one to three decimal digits, no
/// leading zero unless the octet is `0`, value at most 255.
pub open spec fn octet_ok(s: Seq<char>) -> bool {
    &&& 1 <= s.len() <= 3
    &&& forall|i: int| 0 <= i < s.len() ==> is_dec(#[trigger] s[i])
    &&& (s.len() > 1 ==> s[0] != '0')
    &&& dec_value(s) <= 255
}

/// The octets of an IPv4 address in dotted-quad text, if the text is one.
pub open spec fn parse_ipv4_spec(s: Seq<char>) -> Option<Seq<int>> {
    let p = split_spec(s, '.');
    if p.len() == 4 && forall|i: int| 0 <= i < 4 ==> octet_ok(#[trigger] p[i]) {
        Some(p.map_values(|x: Seq<char>| dec_value(x)))
    } else {
        None
    }
}

/// An IPv6 group: one to four hexadecimal digits.
pub open spec fn group_ok(s: Seq<char>) -> bool {
    &&& 1 <= s.len() <= 4
    &&& forall|i: int| 0 <= i < s.len() ==> hex_val(#[trigger] s[i]) >= 0
}

/// All pieces are valid IPv6 groups.
pub open spec fn groups_ok(p: Seq<Seq<char>>) -> bool {
    forall|i: int| 0 <= i < p.len() ==> group_ok(#[trigger] p[i])
}

/// The ':'-separated groups of a text (none for the empty text).
pub open spec fn hex_groups(s: Seq<char>) -> Seq<Seq<char>> {
    if s.len() == 0 {
        Seq::empty()
    } else {
        split_spec(s, ':')
    }
}

/// The values of IPv6 groups.
pub open spec fn group_values(p: Seq<Seq<char>>) -> Seq<int> {
    p.map_values(|x: Seq<char>| hex_value(x))
}

/// The 16-bit values of the ':'-separated pieces of an IPv6 address: hexadecimal groups,
/// the last of which may instead be a dotted IPv4 address, read as two groups.
pub open spec fn pieces_values(p: Seq<Seq<char>>) -> Option<Seq<int>> {
    if p.len() > 0 && parse_ipv4_spec(p.last()) is Some && groups_ok(p.drop_last()) {
        let o = parse_ipv4_spec(p.last())->0;
        Some(group_values(p.drop_last()) + seq![o[0] * 256 + o[1], o[2] * 256 + o[3]])
    } else if groups_ok(p) {
        Some(group_values(p))
    } else {
        None
    }
}

/// The eight 16-bit groups of an IPv6 address in text, as `Ipv6Addr::from_str` reads it:
/// hexadecimal groups with at most one `::` standing for one or more zero groups, and
/// optionally a dotted IPv4 address in place of the last two groups (not before the `::`).
pub open spec fn parse_ipv6_spec(s: Seq<char>) -> Option<Seq<int>> {
    if !(exists|i: int| occurs_at(s, "::"@, i)) {
        match pieces_values(split_spec(s, ':')) {
            Some(v) => if v.len() == 8 { Some(v) } else { None },
            None => None,
        }
    } else {
        let i = choose|i: int| first_occurrence_from(s, "::"@, 0, i);
        let hp = hex_groups(s.subrange(0, i));
        match pieces_values(hex_groups(s.subrange(i + 2, s.len() as int))) {
            Some(tv) => if groups_ok(hp) && hp.len() + tv.len() <= 7 {
                Some(group_values(hp) + Seq::new((8 - hp.len() - tv.len()) as nat, |k: int| 0int) + tv)
            } else {
                None
            },
            None => None,
        }
    }
}

/// A private, loopback or link-local IPv4 address.
pub open spec fn private_v4(o: Seq<int>) -> bool {
    ||| o[0] == 10
    ||| (o[0] == 172 && 16 <= o[1] <= 31)
    ||| (o[0] == 192 && o[1] == 168)
    ||| o[0] == 127
    ||| (o[0] == 169 && o[1] == 254)
}

/// A loopback, unspecified or unique-local (fc00::/7) IPv6 address.
pub open spec fn private_v6(g: Seq<int>) -> bool {
    ||| g =~= seq![0int, 0, 0, 0, 0, 0, 0, 1]
    ||| g =~= seq![0int, 0, 0, 0, 0, 0, 0, 0]
    ||| 0xfc00 <= g[0] <= 0xfdff
}

/// The text is enclosed in square brackets.
pub open spec fn bracketed(h: Seq<char>) -> bool {
    h.len() >= 2 && h[0] == '[' && h.last() == ']'
}

/// The host names a private, loopback or link-local address: a dotted IPv4 address or an
/// IPv6 address, the latter also when written in square brackets as URLs write it.
pub open spec fn is_private_ip_spec(h: Seq<char>) -> bool {
    if bracketed(h) {
        match parse_ipv6_spec(h.subrange(1, h.len() - 1)) {
            Some(g) => private_v6(g),
            None => false,
        }
    } else {
        match parse_ipv4_spec(h) {
            Some(o) => private_v4(o),
            None => match parse_ipv6_spec(h) {
                Some(g) => private_v6(g),
                None => false,
            },
        }
    }
}

/// The characters `a..b` of `v`.
pub fn sub_vec(v: &Vec<char>, a: usize, b: usize) -> (r: Vec<char>)
    requires
        a <= b <= v@.len(),
    ensures
        r@ == v@.subrange(a as int, b as int),
{
    let mut r: Vec<char> = Vec::new();
    let mut i = a;
    while i < b
        invariant
            a <= i <= b,
            b <= v@.len(),
            r@ == v@.subrange(a as int, i as int),
        decreases b - i,
    {
        r.push(v[i]);
        i = i + 1;
        assert(r@ =~= v@.subrange(a as int, i as int));
    }
    r
}

/// The value of a valid IPv4 octet, or `None`.
fn octet_value(s: &Vec<char>) -> (r: Option<u32>)
    ensures
        match r {
            Some(v) => octet_ok(s@) && v == dec_value(s@),
            None => !octet_ok(s@),
        },
{
    if s.len() < 1 || s.len() > 3 {
        return None;
    }
    if s.len() > 1 && s[0] == '0' {
        return None;
    }
    let mut v: u32 = 0;
    let mut k: usize = 0;
    while k < s.len()
        invariant
            s@.len() <= 3,
            k <= s@.len(),
            forall|j: int| 0 <= j < k ==> is_dec(#[trigger] s@[j]),
            v == dec_value(s@.subrange(0, k as int)),
            v < 1000,
            k <= 2 ==> v < 100,
            k <= 1 ==> v < 10,
            k == 0 ==> v == 0,
        decreases s.len() - k,
    {
        let c = s[k];
        if !('0' <= c && c <= '9') {
            return None;
        }
        proof {
            assert(s@.subrange(0, k + 1).drop_last() =~= s@.subrange(0, k as int));
        }
        v = v * 10 + ((c as u32) - ('0' as u32));
        k = k + 1;
    }
    assert(s@.subrange(0, s@.len() as int) =~= s@);
    if v > 255 {
        return None;
    }
    Some(v)
}

/// The value of a valid IPv6 group, or `None`.
fn group_value(s: &Vec<char>) -> (r: Option<u32>)
    ensures
        match r {
            Some(v) => group_ok(s@) && v == hex_value(s@),
            None => !group_ok(s@),
        },
{
    if s.len() < 1 || s.len() > 4 {
        return None;
    }
    let mut v: u32 = 0;
    let mut k: usize = 0;
    while k < s.len()
        invariant
            s@.len() <= 4,
            k <= s@.len(),
            forall|j: int| 0 <= j < k ==> hex_val(#[trigger] s@[j]) >= 0,
            v == hex_value(s@.subrange(0, k as int)),
            k <= 4 ==> v < 65536,
            k <= 3 ==> v < 4096,
            k <= 2 ==> v < 256,
            k <= 1 ==> v < 16,
            k == 0 ==> v == 0,
        decreases s.len() - k,
    {
        let c = s[k];
        let d: u32 = if '0' <= c && c <= '9' {
            (c as u32) - ('0' as u32)
        } else if 'a' <= c && c <= 'f' {
            (c as u32) - ('a' as u32) + 10
        } else if 'A' <= c && c <= 'F' {
            (c as u32) - ('A' as u32) + 10
        } else {
            return None;
        };
        proof {
            assert(s@.subrange(0, k + 1).drop_last() =~= s@.subrange(0, k as int));
        }
        v = v * 16 + d;
        k = k + 1;
    }
    assert(s@.subrange(0, s@.len() as int) =~= s@);
    Some(v)
}

/// The values of a list of groups, if all are valid.
fn groups_values(p: &Vec<Vec<char>>) -> (r: Option<Vec<u32>>)
    ensures
        match r {
            Some(v) => groups_ok(char_vecs_view(p@)) && v@.map_values(|x: u32| x as int) == group_values(char_vecs_view(p@)),
            None => !groups_ok(char_vecs_view(p@)),
        },
{
    let mut out: Vec<u32> = Vec::new();
    let mut i: usize = 0;
    while i < p.len()
        invariant
            i <= p@.len(),
            out@.len() == i,
            forall|j: int| 0 <= j < i ==> group_ok(#[trigger] char_vecs_view(p@)[j]) && out@[j] == hex_value(char_vecs_view(p@)[j]),
        decreases p.len() - i,
    {
        match group_value(&p[i]) {
            Some(v) => {
                out.push(v);
            },
            None => {
                assert(!group_ok(char_vecs_view(p@)[i as int]));
                return None;
            },
        }
        i = i + 1;
    }
    assert(out@.map_values(|x: u32| x as int) =~= group_values(char_vecs_view(p@)));
    Some(out)
}

/// The values of the pieces of an IPv6 address, if all are valid (see `pieces_values`).
fn pieces_values_exec(p: &Vec<Vec<char>>) -> (r: Option<Vec<u32>>)
    ensures
        match r {
            Some(v) => pieces_values(char_vecs_view(p@)) == Some(v@.map_values(|x: u32| x as int)),
            None => pieces_values(char_vecs_view(p@)) is None,
        },
{
    let n = p.len();
    let ghost pv = char_vecs_view(p@);
    if n > 0 {
        assert(pv.last() == p@[n - 1]@);
        if let Some(o) = parse_ipv4(&p[n - 1]) {
            proof {
                let q = split_spec(pv.last(), '.');
                assert(octet_ok(q[0]) && octet_ok(q[1]) && octet_ok(q[2]) && octet_ok(q[3]));
                assert(o@.map_values(|x: u32| x as int)[0] == o@[0]);
                assert(o@.map_values(|x: u32| x as int)[1] == o@[1]);
                assert(o@.map_values(|x: u32| x as int)[2] == o@[2]);
                assert(o@.map_values(|x: u32| x as int)[3] == o@[3]);
            }
            let mut out: Vec<u32> = Vec::new();
            let mut i: usize = 0;
            while i < n - 1
                invariant
                    n == p@.len(),
                    n > 0,
                    pv == char_vecs_view(p@),
                    i <= n - 1,
                    out@.len() == i,
                    forall|j: int| 0 <= j < i ==> group_ok(#[trigger] pv[j]) && out@[j] == hex_value(pv[j]),
                decreases n - 1 - i,
            {
                match group_value(&p[i]) {
                    Some(v) => {
                        out.push(v);
                    },
                    None => {
                        proof {
                            assert(!group_ok(pv[i as int]));
                            assert(pv.drop_last()[i as int] == pv[i as int]);
                            assert(!groups_ok(pv.drop_last()));
                            assert(!groups_ok(pv));
                        }
                        return None;
                    },
                }
                i = i + 1;
            }
            let hi = o[0] * 256 + o[1];
            let lo = o[2] * 256 + o[3];
            let ghost head = out@;
            out.push(hi);
            out.push(lo);
            proof {
                let ov = parse_ipv4_spec(pv.last())->0;
                assert(ov == o@.map_values(|x: u32| x as int));
                assert(ov[0] == o@[0] && ov[1] == o@[1] && ov[2] == o@[2] && ov[3] == o@[3]);
                assert forall|j: int| 0 <= j < pv.drop_last().len() implies group_ok(#[trigger] pv.drop_last()[j]) by {
                    assert(pv.drop_last()[j] == pv[j]);
                }
                let expect = group_values(pv.drop_last()) + seq![ov[0] * 256 + ov[1], ov[2] * 256 + ov[3]];
                assert(expect.len() == out@.len());
                assert forall|j: int| 0 <= j < out@.len() implies out@.map_values(|x: u32| x as int)[j] == expect[j] by {
                    if j < n - 1 {
                        assert(out@[j] == head[j]);
                        assert(pv.drop_last()[j] == pv[j]);
                    }
                }
                assert(out@.map_values(|x: u32| x as int) =~= expect);
            }
            return Some(out);
        }
    }
    groups_values(p)
}

/// The octets of a dotted-quad IPv4 address, if `s` is one.
pub fn parse_ipv4(s: &Vec<char>) -> (r: Option<Vec<u32>>)
    ensures
        match r {
            Some(o) => o@.len() == 4 && parse_ipv4_spec(s@) == Some(o@.map_values(|x: u32| x as int)),
            None => parse_ipv4_spec(s@) is None,
        },
{
    let parts = split_chars(s, '.');
    if parts.len() != 4 {
        return None;
    }
    let mut out: Vec<u32> = Vec::new();
    let mut i: usize = 0;
    while i < 4
        invariant
            parts@.len() == 4,
            char_vecs_view(parts@) == split_spec(s@, '.'),
            i <= 4,
            out@.len() == i,
            forall|j: int| 0 <= j < i ==> octet_ok(#[trigger] split_spec(s@, '.')[j]) && out@[j] == dec_value(split_spec(s@, '.')[j]),
        decreases 4 - i,
    {
        assert(char_vecs_view(parts@)[i as int] == parts@[i as int]@);
        match octet_value(&parts[i]) {
            Some(v) => {
                out.push(v);
            },
            None => {
                return None;
            },
        }
        i = i + 1;
    }
    proof {
        let p = split_spec(s@, '.');
        assert(out@.map_values(|x: u32| x as int) =~= p.map_values(|x: Seq<char>| dec_value(x)));
    }
    Some(out)
}

/// The pieces of a text between ':' (none for the empty text).
fn hex_groups_exec(s: &Vec<char>) -> (r: Vec<Vec<char>>)
    ensures
        char_vecs_view(r@) == hex_groups(s@),
{
    if s.len() == 0 {
        let r: Vec<Vec<char>> = Vec::new();
        assert(char_vecs_view(r@) =~= Seq::<Seq<char>>::empty());
        r
    } else {
        split_chars(s, ':')
    }
}

/// The eight groups of an IPv6 address, if `s` is one (see `parse_ipv6_spec`).
#[verifier::spinoff_prover]
#[verifier::rlimit(30)]
pub fn parse_ipv6(s: &Vec<char>) -> (r: Option<Vec<u32>>)
    ensures
        match r {
            Some(g) => g@.len() == 8 && parse_ipv6_spec(s@) == Some(g@.map_values(|x: u32| x as int)),
            None => parse_ipv6_spec(s@) is None,
        },
{
    let mut dc: Vec<char> = Vec::new();
    dc.push(':');
    dc.push(':');
    proof {
        reveal_strlit("::");
        assert(dc@ =~= "::"@);
        assert("::"@.len() == 2);
    }
    match find_from(s, &dc, 0) {
        None => {
            let parts = split_chars(s, ':');
            let r = pieces_values_exec(&parts);
            proof {
                assert(!(exists|k: int| occurs_at(s@, "::"@, k)));
            }
            match r {
                Some(v) => {
                    if v.len() != 8 {
                        return None;
                    }
                    assert(v@.map_values(|x: u32| x as int).len() == 8);
                    Some(v)
                },
                None => None,
            }
        },
        Some(i) => {
            proof {
                assert(first_occurrence_from(s@, "::"@, 0, i as int));
                let k = choose|k: int| first_occurrence_from(s@, "::"@, 0, k);
                if k < i {
                    assert(!occurs_at(s@, "::"@, k));
                }
                if i < k {
                    assert(!occurs_at(s@, "::"@, i as int));
                }
                assert(k == i);
            }
            let sl = s.len();
            assert(i + 2 <= sl);
            let head = sub_vec(s, 0, i);
            let tail = sub_vec(s, i + 2, sl);
            let hp = hex_groups_exec(&head);
            let tp = hex_groups_exec(&tail);
            let hv = groups_values(&hp);
            let tv = pieces_values_exec(&tp);
            match (hv, tv) {
                (Some(h), Some(t)) => {
                    if h.len() > 7 || t.len() > 7 - h.len() {
                        return None;
                    }
                    let zeros = 8 - h.len() - t.len();
                    let mut out = h;
                    let ghost hs = out@;
                    let mut z: usize = 0;
                    while z < zeros
                        invariant
                            z <= zeros,
                            out@.len() == hs.len() + z,
                            out@.subrange(0, hs.len() as int) == hs,
                            forall|j: int| hs.len() <= j < out@.len() ==> out@[j] == 0,
                        decreases zeros - z,
                    {
                        out.push(0);
                        z = z + 1;
                        assert(out@.subrange(0, hs.len() as int) =~= hs);
                    }
                    let ghost mid = out@;
                    let mut k: usize = 0;
                    while k < t.len()
                        invariant
                            k <= t@.len(),
                            out@.len() == mid.len() + k,
                            out@.subrange(0, mid.len() as int) == mid,
                            forall|j: int| 0 <= j < k ==> out@[mid.len() + j] == t@[j],
                        decreases t.len() - k,
                    {
                        out.push(t[k]);
                        k = k + 1;
                        assert(out@.subrange(0, mid.len() as int) =~= mid);
                    }
                    proof {
                        let hpv = hex_groups(s@.subrange(0, i as int));
                        let tpv = hex_groups(s@.subrange(i + 2, s@.len() as int));
                        assert(char_vecs_view(hp@) == hpv);
                        assert(char_vecs_view(tp@) == tpv);
                        assert(hs.map_values(|x: u32| x as int) == group_values(hpv));
                        let tval = t@.map_values(|x: u32| x as int);
                        assert(pieces_values(tpv) == Some(tval));
                        assert(hs.map_values(|x: u32| x as int).len() == hs.len());
                        assert(hpv.len() == hs.len());
                        assert(t@.map_values(|x: u32| x as int).len() == t@.len());
                        let expect = group_values(hpv) + Seq::new((8 - hpv.len() - tval.len()) as nat, |k: int| 0int) + tval;
                        assert(expect.len() == out@.len());
                        assert forall|j: int| 0 <= j < out@.len() implies out@.map_values(|x: u32| x as int)[j] == expect[j] by {
                            if j < mid.len() {
                                assert(out@[j] == out@.subrange(0, mid.len() as int)[j]);
                                assert(out@[j] == mid[j]);
                                if j < hs.len() {
                                    assert(mid[j] == mid.subrange(0, hs.len() as int)[j]);
                                    assert(hs.map_values(|x: u32| x as int)[j] == group_values(hpv)[j]);
                                }
                            } else {
                                let q = j - mid.len();
                                assert(out@[mid.len() + q] == t@[q]);
                                assert(tval[q] == t@[q]);
                            }
                        }
                        assert(out@.map_values(|x: u32| x as int) =~= expect);
                        assert(groups_ok(hpv) && hpv.len() + tval.len() <= 7);
                        assert(parse_ipv6_spec(s@) == Some(expect));
                    }
                    Some(out)
                },
                _ => None,
            }
        },
    }
}

/// Whether the host names a private, loopback or link-local address (see
/// `is_private_ip_spec`).
pub fn is_private_ip(host: &str) -> (r: bool)
    ensures
        r == is_private_ip_spec(host@),
{
    let h = chars_of(host);
    let n = h.len();
    if n >= 2 && h[0] == '[' && h[n - 1] == ']' {
        let inner = sub_vec(&h, 1, n - 1);
        return match parse_ipv6(&inner) {
            Some(g) => private_v6_exec(&g),
            None => false,
        };
    }
    match parse_ipv4(&h) {
        Some(o) => o[0] == 10 || (o[0] == 172 && 16 <= o[1] && o[1] <= 31) || (o[0] == 192 && o[1]
            == 168) || o[0] == 127 || (o[0] == 169 && o[1] == 254),
        None => match parse_ipv6(&h) {
            Some(g) => private_v6_exec(&g),
            None => false,
        },
    }
}

/// Whether eight group values name a loopback, unspecified or unique-local address.
fn private_v6_exec(g: &Vec<u32>) -> (r: bool)
    requires
        g@.len() == 8,
    ensures
        r == private_v6(g@.map_values(|x: u32| x as int)),
{
    let ghost gv = g@.map_values(|x: u32| x as int);
    let mut first_seven_zero = true;
    let mut i: usize = 0;
    while i < 7
        invariant
            g@.len() == 8,
            i <= 7,
            first_seven_zero == forall|j: int| 0 <= j < i ==> g@[j] == 0,
        decreases 7 - i,
    {
        if g[i] != 0 {
            first_seven_zero = false;
        }
        i = i + 1;
    }
    let lo = first_seven_zero && g[7] == 1;
    let un = first_seven_zero && g[7] == 0;
    proof {
        if lo {
            assert(gv =~= seq![0int, 0, 0, 0, 0, 0, 0, 1]);
        }
        if un {
            assert(gv =~= seq![0int, 0, 0, 0, 0, 0, 0, 0]);
        }
        if gv =~= seq![0int, 0, 0, 0, 0, 0, 0, 1] || gv =~= seq![0int, 0, 0, 0, 0, 0, 0, 0] {
            assert(forall|j: int| 0 <= j < 7 ==> g@[j] == gv[j]);
        }
    }
    lo || un || (0xfc00 <= g[0] && g[0] <= 0xfdff)
}

} // verus!
