//! IPv4 addresses and their dotted notation.

use vstd::prelude::*;
use vstd::string::*;

use crate::text::{decimal_string, split, to_chars};
#[allow(unused_imports)]
use crate::text::{decimal, decimal_is_injective, digit, first_index, first_index_is, split_on, views};

verus! {

/// An IPv4 address by its four octets.
#[derive(Clone, Copy, PartialEq, Eq, Debug, Structural)]
pub struct Ipv4 {
    pub a: u8,
    pub b: u8,
    pub c: u8,
    pub d: u8,
}

/// The dotted notation of an address.
pub open spec fn dotted(ip: Ipv4) -> Seq<char> {
    decimal(ip.a as nat) + "."@ + decimal(ip.b as nat) + "."@ + decimal(ip.c as nat) + "."@
        + decimal(ip.d as nat)
}

/// The address is one that no host answers on by itself: all zeros, a group, or
/// everyone.
pub open spec fn non_unicast(ip: Ipv4) -> bool {
    ||| ip == (Ipv4 { a: 0, b: 0, c: 0, d: 0 })
    ||| 224 <= ip.a <= 239
    ||| ip == (Ipv4 { a: 255, b: 255, c: 255, d: 255 })
}

/// The address is a plausible unicast address of a guest: it is not loopback,
/// link-local, multicast, unspecified or broadcast.
pub open spec fn plausible_guest(ip: Ipv4) -> bool {
    !(ip.a == 127 || (ip.a == 169 && ip.b == 254) || non_unicast(ip))
}

/// Whether no host answers on the address by itself.
pub fn is_non_unicast(ip: &Ipv4) -> (r: bool)
    ensures
        r == non_unicast(*ip),
{
    (ip.a == 0 && ip.b == 0 && ip.c == 0 && ip.d == 0) || (224 <= ip.a && ip.a <= 239) || (ip.a
        == 255 && ip.b == 255 && ip.c == 255 && ip.d == 255)
}

/// Whether an agent-reported guest IPv4 is a plausible unicast address for the
/// host to dial or DNAT to. The guest is not trusted, so an address that leads
/// back to the host or to nobody in particular is not acted on.
pub fn is_plausible_guest_ip(ip: &Ipv4) -> (r: bool)
    ensures
        r == plausible_guest(*ip),
{
    !(ip.a == 127 || (ip.a == 169 && ip.b == 254) || is_non_unicast(ip))
}

impl Ipv4 {
    /// The address in dotted notation.
    pub fn text(&self) -> (r: String)
        ensures
            r@ == dotted(*self),
    {
        decimal_string(self.a as u64).concat(".").concat(
            decimal_string(self.b as u64).as_str(),
        ).concat(".").concat(decimal_string(self.c as u64).as_str()).concat(".").concat(
            decimal_string(self.d as u64).as_str(),
        )
    }
}

proof fn octet_digits(n: u8)
    ensures
        decimal(n as nat) == (if n < 10 {
            seq![digit(n as int)]
        } else if n < 100 {
            seq![digit(n as int / 10), digit(n as int % 10)]
        } else {
            seq![digit(n as int / 100), digit(n as int / 10 % 10), digit(n as int % 10)]
        }),
{
    reveal_with_fuel(decimal, 3);
    if n >= 10 {
        assert(decimal(n as nat) == decimal(n as nat / 10).push(digit((n as nat % 10) as int)));
        if n >= 100 {
            assert(decimal(n as nat / 10) == decimal(n as nat / 10 / 10).push(
                digit((n as nat / 10 % 10) as int),
            ));
            assert(decimal(n as nat / 10 / 10) == seq![digit((n as nat / 10 / 10) as int)]);
        } else {
            assert(decimal(n as nat / 10) == seq![digit((n as nat / 10) as int)]);
        }
    }
}

proof fn octet_has_no_dot(n: u8)
    ensures
        !decimal(n as nat).contains('.'),
{
    octet_digits(n);
}

fn digit_value(c: char) -> (r: Option<u8>)
    ensures
        r matches Some(d) ==> d < 10 && c == digit(d as int),
        r is Some <==> '0' <= c <= '9',
        r is None ==> forall|d: int| 0 <= d < 10 ==> c != digit(d),
{
    if '0' <= c && c <= '9' {
        Some((c as u32 - '0' as u32) as u8)
    } else {
        None
    }
}

/// The number below 256 that `s` is the decimal of.
fn parse_octet(s: &str) -> (r: Option<u8>)
    ensures
        r matches Some(n) ==> s@ == decimal(n as nat),
        r is None ==> forall|n: u8| s@ != #[trigger] decimal(n as nat),
{
    let v = to_chars(s);
    let r = octet_of(&v);
    proof {
        if r is None {
            assert forall|n: u8| s@ != #[trigger] decimal(n as nat) by {
                octet_digits(n);
                let t = decimal(n as nat);
                if s@ == t {
                    assert(t[0] == v@[0]);
                    if t.len() > 1 {
                        assert(t[1] == v@[1]);
                    }
                    if t.len() > 2 {
                        assert(t[2] == v@[2]);
                    }
                    let (x, y, z) = (n as int / 100, n as int / 10 % 10, n as int % 10);
                    assert(octet_shape(v@, x, y, z));
                    assert(100 * x + 10 * y + z == n);
                }
            }
        }
    }
    r
}

proof fn digits_are_distinct()
    ensures
        forall|x: int, y: int|
            0 <= x < 10 && 0 <= y < 10 && #[trigger] digit(x) == #[trigger] digit(y) ==> x == y,
{
}

/// One to three digits, the first of several no zero, that make a number below 256.
spec fn octet_shape(v: Seq<char>, x: int, y: int, z: int) -> bool {
    ||| v == seq![digit(z)] && x == 0 && y == 0 && 0 <= z < 10
    ||| v == seq![digit(y), digit(z)] && x == 0 && 0 < y < 10 && 0 <= z < 10
    ||| v == seq![digit(x), digit(y), digit(z)] && 0 < x < 10 && 0 <= y < 10 && 0 <= z < 10
}

fn octet_of(v: &Vec<char>) -> (r: Option<u8>)
    ensures
        r matches Some(n) ==> v@ == decimal(n as nat),
        r is None ==> forall|x: int, y: int, z: int|
            octet_shape(v@, x, y, z) ==> 100 * x + 10 * y + z > 255,
{
    proof {
        digits_are_distinct();
    }
    if v.len() == 1 {
        let z = digit_value(v[0])?;
        proof {
            octet_digits(z);
            assert(v@ =~= decimal(z as nat));
        }
        return Some(z);
    }
    if v.len() == 2 {
        let y = digit_value(v[0])?;
        let z = digit_value(v[1])?;
        if y == 0 {
            return None;
        }
        let n: u8 = y * 10 + z;
        proof {
            octet_digits(n);
            assert(v@ =~= decimal(n as nat));
        }
        return Some(n);
    }
    if v.len() == 3 {
        let x = digit_value(v[0])?;
        let y = digit_value(v[1])?;
        let z = digit_value(v[2])?;
        let n: u32 = x as u32 * 100 + y as u32 * 10 + z as u32;
        if x == 0 || n > 255 {
            return None;
        }
        proof {
            octet_digits(n as u8);
            assert(v@ =~= decimal(n as u8 as nat));
        }
        return Some(n as u8);
    }
    None
}

proof fn split_once(x: Seq<char>, y: Seq<char>)
    requires
        !x.contains('.'),
    ensures
        split_on(x + "."@ + y, '.') == seq![x] + split_on(y, '.'),
{
    reveal_strlit(".");
    let s = x + "."@ + y;
    assert forall|k: int| 0 <= k < x.len() implies s[k] != '.' by {
        assert(s[k] == x[k]);
    }
    assert(s[x.len() as int] == '.');
    first_index_is(s, '.', x.len() as int);
    assert(s.take(x.len() as int) == x);
    assert(s.skip(x.len() as int + 1) == y);
}

proof fn dotted_splits(ip: Ipv4)
    ensures
        split_on(dotted(ip), '.') == seq![
            decimal(ip.a as nat),
            decimal(ip.b as nat),
            decimal(ip.c as nat),
            decimal(ip.d as nat),
        ],
{
    reveal_strlit(".");
    octet_has_no_dot(ip.a);
    octet_has_no_dot(ip.b);
    octet_has_no_dot(ip.c);
    octet_has_no_dot(ip.d);
    let (a, b, c, d) = (
        decimal(ip.a as nat),
        decimal(ip.b as nat),
        decimal(ip.c as nat),
        decimal(ip.d as nat),
    );
    first_index_is(d, '.', d.len() as int);
    assert(split_on(d, '.') == seq![d]);
    split_once(c, d);
    split_once(b, c + "."@ + d);
    split_once(a, b + "."@ + (c + "."@ + d));
    assert(dotted(ip) == a + "."@ + (b + "."@ + (c + "."@ + d)));
    assert(split_on(dotted(ip), '.') =~= seq![a, b, c, d]);
}

/// Splitting loses nothing: the pieces, with the separators between them, are the
/// text.
proof fn split_of_four(s: Seq<char>)
    requires
        split_on(s, '.').len() == 4,
    ensures
        s == split_on(s, '.')[0] + "."@ + split_on(s, '.')[1] + "."@ + split_on(s, '.')[2] + "."@
            + split_on(s, '.')[3],
{
    reveal_strlit(".");
    reveal_with_fuel(split_on, 5);
    crate::text::first_index_bounds(s, '.');
    let i = first_index(s, '.');
    let s1 = s.skip(i + 1);
    assert(split_on(s, '.') == seq![s.take(i)] + split_on(s1, '.'));
    assert(split_on(s, '.').skip(1) == split_on(s1, '.'));
    crate::text::first_index_bounds(s1, '.');
    let j = first_index(s1, '.');
    let s2 = s1.skip(j + 1);
    assert(split_on(s1, '.') == seq![s1.take(j)] + split_on(s2, '.'));
    assert(split_on(s1, '.').skip(1) == split_on(s2, '.'));
    crate::text::first_index_bounds(s2, '.');
    let k = first_index(s2, '.');
    let s3 = s2.skip(k + 1);
    assert(split_on(s2, '.') == seq![s2.take(k)] + split_on(s3, '.'));
    assert(split_on(s2, '.').skip(1) == split_on(s3, '.'));
    assert(split_on(s3, '.') == seq![s3]);
    assert(s == s.take(i) + "."@ + s1);
    assert(s1 == s1.take(j) + "."@ + s2);
    assert(s2 == s2.take(k) + "."@ + s3);
    assert(s =~= s.take(i) + "."@ + s1.take(j) + "."@ + s2.take(k) + "."@ + s3);
}

/// The address that `s` is the dotted notation of: four numbers below 256 in
/// decimal, without leading zeros.
pub fn parse_ipv4(s: &str) -> (r: Option<Ipv4>)
    ensures
        r matches Some(ip) ==> s@ == dotted(ip),
        r is None ==> forall|ip: Ipv4| s@ != #[trigger] dotted(ip),
{
    let parts = split(s, '.');
    proof {
        assert forall|ip: Ipv4| s@ == #[trigger] dotted(ip) implies views(parts@) == seq![
            decimal(ip.a as nat),
            decimal(ip.b as nat),
            decimal(ip.c as nat),
            decimal(ip.d as nat),
        ] by {
            dotted_splits(ip);
        }
        assert(views(parts@).len() == parts@.len());
    }
    if parts.len() != 4 {
        return None;
    }
    proof {
        split_of_four(s@);
        assert(views(parts@)[0] == parts@[0]@);
        assert(views(parts@)[1] == parts@[1]@);
        assert(views(parts@)[2] == parts@[2]@);
        assert(views(parts@)[3] == parts@[3]@);
    }
    let a = parse_octet(parts[0].as_str());
    let b = parse_octet(parts[1].as_str());
    let c = parse_octet(parts[2].as_str());
    let d = parse_octet(parts[3].as_str());
    match (a, b, c, d) {
        (Some(a), Some(b), Some(c), Some(d)) => Some(Ipv4 { a, b, c, d }),
        _ => None,
    }
}

/// Two addresses never share their dotted notation, so an address that is written
/// out and read back is the same.
pub proof fn dotted_notation_is_unique(x: Ipv4, y: Ipv4)
    requires
        dotted(x) == dotted(y),
    ensures
        x == y,
{
    dotted_splits(x);
    dotted_splits(y);
    let p = split_on(dotted(x), '.');
    let q = split_on(dotted(y), '.');
    assert(p[0] == q[0] && p[1] == q[1] && p[2] == q[2] && p[3] == q[3]);
    decimal_is_injective(x.a as nat, y.a as nat);
    decimal_is_injective(x.b as nat, y.b as nat);
    decimal_is_injective(x.c as nat, y.c as nat);
    decimal_is_injective(x.d as nat, y.d as nat);
}

/// A guest's address is acted on exactly where it can be a guest's: not the host's own
/// loopback, not link-local, not a group, not everyone and not nobody. Private addresses
/// always can.
pub proof fn guests_have_unicast_addresses(ip: Ipv4)
    ensures
        ip.a == 127 ==> !plausible_guest(ip),
        ip.a == 169 && ip.b == 254 ==> !plausible_guest(ip),
        224 <= ip.a && ip.a <= 239 ==> non_unicast(ip) && !plausible_guest(ip),
        ip.a == 0 && ip.b == 0 && ip.c == 0 && ip.d == 0 ==> non_unicast(ip) && !plausible_guest(ip),
        ip.a == 255 && ip.b == 255 && ip.c == 255 && ip.d == 255 ==> non_unicast(ip)
            && !plausible_guest(ip),
        ip.a == 10 || ip.a == 172 && 16 <= ip.b <= 31 || ip.a == 192 && ip.b == 168
            ==> plausible_guest(ip) && !non_unicast(ip),
        0 < ip.a < 224 && ip.a != 127 && ip.a != 169 ==> plausible_guest(ip),
        ip.a == 169 && ip.b != 254 ==> plausible_guest(ip),
        ip.a < 224 && ip.a > 0 ==> !non_unicast(ip),
        240 <= ip.a < 255 ==> plausible_guest(ip),
        ip.a == 255 && !(ip.b == 255 && ip.c == 255 && ip.d == 255) ==> plausible_guest(ip),
{
}

} // verus!
