//! Egress rules: the destinations that a VM may reach, as a request names them and as
//! they are enforced.

use vstd::prelude::*;
use vstd::string::*;
#[allow(unused_imports)]
use vstd::utf8::encode_utf8;

use crate::error::CoreError;
#[allow(unused_imports)]
use crate::error::{unit_view, ErrorView};
use crate::ipv4::{is_non_unicast, parse_ipv4, Ipv4};
#[allow(unused_imports)]
use crate::ipv4::{dotted, dotted_notation_is_unique, non_unicast};
use crate::text::{
    contains_char, decimal_string, from_chars, is_space_char, split, str_eq, to_chars, to_lower,
};
#[allow(unused_imports)]
use crate::text::{
    decimal, has_suffix, is_alnum, is_space, lower_all, occurs, occurs_at, split_on, stands_between,
    trimmed_end, views,
};

verus! {

/// How many rules a request may hold.
pub const MAX_REQUESTED_EGRESS_RULES: usize = 32;

/// How many destinations may come of them.
pub const MAX_RESOLVED_EGRESS_RULES: usize = 128;

/// A destination as a request names it.
#[derive(Debug)]
pub struct EgressRuleRequest {
    pub host: String,
    pub port: u16,
    pub protocol: String,
}

/// The protocols that rules are made for.
#[derive(Clone, Copy, PartialEq, Eq, Debug, Structural)]
pub enum Protocol {
    Tcp,
    Udp,
}

/// A destination as it is enforced.
#[derive(Clone, Copy, PartialEq, Eq, Debug, Structural)]
pub struct ResolvedEgressRule {
    pub destination: Ipv4,
    pub protocol: Protocol,
    pub port: u16,
}

// ---------------------------------------------------------------------------
// Hosts
// ---------------------------------------------------------------------------

/// `s` without the white space in front of it.
pub open spec fn trimmed_start(s: Seq<char>) -> Seq<char>
    decreases s.len(),
{
    if s.len() > 0 && is_space(s[0]) {
        trimmed_start(s.skip(1))
    } else {
        s
    }
}

/// `s` without the dots at its end.
pub open spec fn without_end_dots(s: Seq<char>) -> Seq<char>
    decreases s.len(),
{
    if s.len() > 0 && s.last() == '.' {
        without_end_dots(s.drop_last())
    } else {
        s
    }
}

/// A host without the white space around it and the dots at its end.
pub open spec fn bare(host: Seq<char>) -> Seq<char> {
    without_end_dots(trimmed_end(trimmed_start(host)))
}

proof fn spaces_in_front_go(c: char, s: Seq<char>)
    requires
        is_space(c),
    ensures
        trimmed_start(seq![c] + s) == trimmed_start(s),
{
    assert((seq![c] + s).skip(1) =~= s);
}

proof fn starts_keep_their_end(s: Seq<char>, c: char)
    ensures
        trimmed_start(s).len() > 0 ==> trimmed_start(s.push(c)) == trimmed_start(s).push(c),
        trimmed_start(s).len() == 0 ==> trimmed_start(s.push(c)) == trimmed_start(seq![c]),
    decreases s.len(),
{
    if s.len() == 0 {
        assert(s.push(c) =~= seq![c]);
    } else if is_space(s[0]) {
        starts_keep_their_end(s.skip(1), c);
        assert(s.push(c).skip(1) =~= s.skip(1).push(c));
    }
}

/// A bare host has no white space around it: white space before or behind a host makes no
/// difference to it, nor does a dot behind a host that ends plainly. A host without any of
/// these is bare already.
pub proof fn bare_hosts_have_nothing_around_them(host: Seq<char>, c: char)
    ensures
        is_space(c) ==> bare(seq![c] + host) == bare(host),
        is_space(c) ==> bare(host.push(c)) == bare(host),
        host.len() > 0 && !is_space(host[0]) && !is_space(host.last()) && host.last() != '.'
            ==> bare(host) == host && bare(host.push('.')) == host,
        bare(host).len() > 0 ==> bare(host).last() != '.',
{
    if is_space(c) {
        spaces_in_front_go(c, host);
        starts_keep_their_end(host, c);
        let t = trimmed_start(host);
        if t.len() > 0 {
            assert(t.push(c).drop_last() =~= t);
            assert(t.push(c).last() == c);
        } else {
            assert(seq![c].skip(1) =~= Seq::empty());
            assert(trimmed_start(Seq::empty()) == Seq::<char>::empty());
            assert(t =~= Seq::empty());
        }
    }
    if host.len() > 0 && !is_space(host[0]) && host.last() != '.' {
        assert(host.push('.').drop_last() =~= host);
        assert(host.push('.').last() == '.');
        assert(!is_space('.'));
        assert(trimmed_end(host.push('.')) == host.push('.'));
        assert(without_end_dots(host.push('.')) == without_end_dots(host));
    }
    no_dots_are_left(trimmed_end(trimmed_start(host)));
}

proof fn no_dots_are_left(s: Seq<char>)
    ensures
        without_end_dots(s).len() > 0 ==> without_end_dots(s).last() != '.',
    decreases s.len(),
{
    if s.len() > 0 && s.last() == '.' {
        no_dots_are_left(s.drop_last());
    }
}

/// A host without the white space around it and the dots at its end.
pub fn bare_host(host: &str) -> (r: String)
    ensures
        r@ == bare(host@),
{
    let v = to_chars(host);
    let mut i: usize = 0;
    proof {
        assert(v@.skip(0) == host@);
    }
    while i < v.len() && is_space_char(v[i])
        invariant
            i <= v@.len(),
            trimmed_start(v@.skip(i as int)) == trimmed_start(host@),
        decreases v.len() - i,
    {
        proof {
            assert(v@.skip(i as int)[0] == v@[i as int]);
            assert(v@.skip(i as int).skip(1) == v@.skip(i + 1));
        }
        i += 1;
    }
    proof {
        if i < v@.len() {
            assert(v@.skip(i as int)[0] == v@[i as int]);
        }
        assert(trimmed_start(host@) == v@.skip(i as int));
        assert(v@.subrange(i as int, v@.len() as int) == v@.skip(i as int));
    }
    let mut j: usize = v.len();
    while j > i && is_space_char(v[j - 1])
        invariant
            i <= j <= v@.len(),
            trimmed_end(v@.subrange(i as int, j as int)) == trimmed_end(trimmed_start(host@)),
        decreases j,
    {
        proof {
            assert(v@.subrange(i as int, j as int).last() == v@[j - 1]);
            assert(v@.subrange(i as int, j as int).drop_last() == v@.subrange(i as int, j - 1));
        }
        j -= 1;
    }
    proof {
        if i < j {
            assert(v@.subrange(i as int, j as int).last() == v@[j - 1]);
        }
        assert(trimmed_end(trimmed_start(host@)) == v@.subrange(i as int, j as int));
    }
    while j > i && v[j - 1] == '.'
        invariant
            i <= j <= v@.len(),
            without_end_dots(v@.subrange(i as int, j as int)) == bare(host@),
        decreases j,
    {
        proof {
            assert(v@.subrange(i as int, j as int).last() == v@[j - 1]);
            assert(v@.subrange(i as int, j as int).drop_last() == v@.subrange(i as int, j - 1));
        }
        j -= 1;
    }
    proof {
        if i < j {
            assert(v@.subrange(i as int, j as int).last() == v@[j - 1]);
        }
    }
    from_chars(&v, i, j)
}

/// A label of a DNS name.
pub open spec fn is_label(s: Seq<char>) -> bool {
    &&& 0 < s.len() <= 63
    &&& s[0] != '-'
    &&& s.last() != '-'
    &&& forall|i: int| 0 <= i < s.len() ==> is_alnum(#[trigger] s[i]) || s[i] == '-'
}

/// The host is an address in IPv4 notation.
pub open spec fn is_ipv4(host: Seq<char>) -> bool {
    exists|ip: Ipv4| host == #[trigger] dotted(ip)
}

/// What is wrong with a bare host, or the host as it is looked up: an address as it
/// stands, a name in lower case.
pub open spec fn host_verdict(host: Seq<char>, is_ipv6: bool) -> Result<Seq<char>, Seq<char>> {
    if host.len() == 0 {
        Err("is required"@)
    } else if encode_utf8(host).len() > 253 {
        Err("must be at most 253 bytes"@)
    } else if host.contains('/') || host.contains('*') {
        Err("must be a hostname or IP address without a scheme, path, or wildcard"@)
    } else if exists|i: int| 0 <= i < host.len() && !('!' <= #[trigger] host[i] <= '~') {
        Err("must contain only printable ASCII hostname characters"@)
    } else if is_ipv4(host) || is_ipv6 {
        Ok(host)
    } else if exists|i: int|
        0 <= i < split_on(host, '.').len() && !is_label(#[trigger] split_on(host, '.')[i]) {
        Err("is not a valid DNS hostname"@)
    } else {
        Ok(lower_all(host))
    }
}

/// A host is taken exactly where it is there, not too long, plain, and either an address or
/// made of valid labels. An address is kept as it stands; a name is put in lower case.
pub proof fn hosts_are_addresses_or_names(host: Seq<char>, is_ipv6: bool)
    ensures
        host_verdict(host, is_ipv6) is Ok <==> {
            &&& host.len() > 0
            &&& encode_utf8(host).len() <= 253
            &&& !host.contains('/')
            &&& !host.contains('*')
            &&& forall|i: int| 0 <= i < host.len() ==> '!' <= #[trigger] host[i] <= '~'
            &&& is_ipv4(host) || is_ipv6 || forall|i: int|
                0 <= i < split_on(host, '.').len() ==> is_label(#[trigger] split_on(host, '.')[i])
        },
        host_verdict(host, is_ipv6) is Ok && is_ipv4(host) ==> host_verdict(host, is_ipv6)->Ok_0 == host,
        host_verdict(host, is_ipv6) is Ok && is_ipv6 ==> host_verdict(host, is_ipv6)->Ok_0 == host,
        host_verdict(host, is_ipv6) is Ok && !is_ipv4(host) && !is_ipv6 ==> host_verdict(host, is_ipv6)->Ok_0 == lower_all(
            host,
        ),
{
}

/// A label is no longer than 63 characters, and has no hyphen at either end.
pub proof fn labels_are_short_and_plain(s: Seq<char>, i: int)
    requires
        is_label(s),
        0 <= i < s.len(),
    ensures
        0 < s.len() < 64,
        s[i] == '-' ==> 0 < i < s.len() - 1,
        s[i] == '-' || 'a' <= s[i] <= 'z' || 'A' <= s[i] <= 'Z' || '0' <= s[i] <= '9',
        s[i] != '.' && s[i] != '_',
{
}

/// Whatever is made of letters, digits and inner hyphens and has 1 to 63 of them is a label.
pub proof fn short_plain_words_are_labels(s: Seq<char>)
    requires
        1 <= s.len(),
        s.len() <= 63,
        s[0] != '-' && s[s.len() - 1] != '-',
        forall|i: int|
            0 <= i < s.len() ==> 'a' <= #[trigger] s[i] <= 'z' || 'A' <= s[i] <= 'Z' || '0' <= s[i]
                <= '9' || s[i] == '-',
    ensures
        is_label(s),
{
}

/// The view of a checked host.
pub open spec fn host_view(r: Result<String, &'static str>) -> Result<Seq<char>, Seq<char>> {
    match r {
        Ok(s) => Ok(s@),
        Err(e) => Err(e@),
    }
}

fn is_plain(c: char) -> (r: bool)
    ensures
        r == (is_alnum(c) || c == '-'),
{
    ('a' <= c && c <= 'z') || ('A' <= c && c <= 'Z') || ('0' <= c && c <= '9') || c == '-'
}

fn label_is_valid(label: &str) -> (r: bool)
    ensures
        r == is_label(label@),
{
    let v = to_chars(label);
    if v.len() == 0 || v.len() > 63 || v[0] == '-' || v[v.len() - 1] == '-' {
        return false;
    }
    let mut i: usize = 0;
    while i < v.len()
        invariant
            i <= v@.len(),
            v@ == label@,
            forall|k: int| 0 <= k < i ==> is_alnum(#[trigger] v@[k]) || v@[k] == '-',
        decreases v.len() - i,
    {
        if !is_plain(v[i]) {
            return false;
        }
        i += 1;
    }
    true
}

/// Check a host. `is_ipv6` tells whether the bare host is an address in IPv6 notation.
pub fn validate_host(value: &str, is_ipv6: bool) -> (r: Result<String, &'static str>)
    ensures
        host_view(r) == host_verdict(bare(value@), is_ipv6),
{
    let host = bare_host(value);
    let v = to_chars(host.as_str());
    if v.len() == 0 {
        return Err("is required");
    }
    if host.as_str().as_bytes().len() > 253 {
        return Err("must be at most 253 bytes");
    }
    if contains_char(host.as_str(), '/') || contains_char(host.as_str(), '*') {
        return Err("must be a hostname or IP address without a scheme, path, or wildcard");
    }
    let mut i: usize = 0;
    while i < v.len()
        invariant
            i <= v@.len(),
            v@ == host@,
            host@ == bare(value@),
            host@.len() > 0,
            encode_utf8(host@).len() <= 253,
            !host@.contains('/'),
            !host@.contains('*'),
            forall|k: int| 0 <= k < i ==> '!' <= #[trigger] v@[k] <= '~',
        decreases v.len() - i,
    {
        if v[i] < '!' || v[i] > '~' {
            proof {
                assert(!('!' <= host@[i as int] <= '~'));
            }
            return Err("must contain only printable ASCII hostname characters");
        }
        i += 1;
    }
    if parse_ipv4(host.as_str()).is_some() || is_ipv6 {
        return Ok(host);
    }
    let labels = split(host.as_str(), '.');
    let mut k: usize = 0;
    while k < labels.len()
        invariant
            k <= labels@.len(),
            host@ == bare(value@),
            host@.len() > 0,
            encode_utf8(host@).len() <= 253,
            !host@.contains('/'),
            !host@.contains('*'),
            forall|j: int| 0 <= j < host@.len() ==> '!' <= #[trigger] host@[j] <= '~',
            !is_ipv4(host@) && !is_ipv6,
            views(labels@) == split_on(host@, '.'),
            forall|j: int| 0 <= j < k ==> is_label(#[trigger] split_on(host@, '.')[j]),
        decreases labels.len() - k,
    {
        proof {
            assert(views(labels@)[k as int] == labels@[k as int]@);
        }
        if !label_is_valid(labels[k].as_str()) {
            proof {
                assert(!is_label(split_on(host@, '.')[k as int]));
            }
            return Err("is not a valid DNS hostname");
        }
        k += 1;
    }
    proof {
        assert(views(labels@).len() == labels@.len());
    }
    Ok(to_lower(host.as_str()))
}

// ---------------------------------------------------------------------------
// Rules
// ---------------------------------------------------------------------------

/// What is wrong with the number of rules that a request holds, if anything.
pub open spec fn count_verdict(count: nat) -> Result<(), ErrorView> {
    if count > MAX_REQUESTED_EGRESS_RULES {
        Err(ErrorView::InvalidArgument("egress accepts at most 32 destination rules"@))
    } else {
        Ok(())
    }
}

/// A request holds 32 rules at most.
pub proof fn requests_hold_few_rules(count: nat)
    ensures
        count_verdict(count) is Ok <==> count <= 32,
        count_verdict(count) is Err ==> count_verdict(count)->Err_0 is InvalidArgument,
{
}

/// Whether a request holds too many rules.
pub fn check_rule_count(count: usize) -> (r: Result<(), CoreError>)
    ensures
        unit_view(r) == count_verdict(count as nat),
{
    if count > MAX_REQUESTED_EGRESS_RULES {
        return Err(
            CoreError::InvalidArgument("egress accepts at most 32 destination rules".to_owned()),
        );
    }
    Ok(())
}

/// Where a rule stands in its request.
pub open spec fn rule_path(index: nat) -> Seq<char> {
    "egress["@ + decimal(index) + "]"@
}

fn rule_fault(index: usize, what: &str) -> (e: CoreError)
    ensures
        e@ == ErrorView::InvalidArgument(rule_path(index as nat) + what@),
{
    CoreError::InvalidArgument(
        "egress[".to_owned().concat(decimal_string(index as u64).as_str()).concat("]").concat(
            what,
        ),
    )
}

/// The protocol that a request names, whatever its case.
pub open spec fn protocol_named(name: Seq<char>) -> Option<Protocol> {
    if lower_all(name) == "tcp"@ {
        Some(Protocol::Tcp)
    } else if lower_all(name) == "udp"@ {
        Some(Protocol::Udp)
    } else {
        None
    }
}

/// The protocol that a request names.
pub fn parse_protocol(name: &str) -> (r: Option<Protocol>)
    ensures
        r == protocol_named(name@),
{
    let name = to_lower(name);
    if str_eq(name.as_str(), "tcp") {
        Some(Protocol::Tcp)
    } else if str_eq(name.as_str(), "udp") {
        Some(Protocol::Udp)
    } else {
        None
    }
}

/// What a protocol is called.
pub open spec fn protocol_name(p: Protocol) -> Seq<char> {
    match p {
        Protocol::Tcp => "tcp"@,
        Protocol::Udp => "udp"@,
    }
}

/// A protocol is known by its own name and no other's, in whatever case.
pub proof fn protocols_are_known_by_their_names(name: Seq<char>, p: Protocol)
    ensures
        protocol_named(name) == Some(p) <==> lower_all(name) == protocol_name(p),
        protocol_name(Protocol::Tcp) == "tcp"@ && protocol_name(Protocol::Udp) == "udp"@,
        protocol_named(name) == Some(Protocol::Tcp) <==> lower_all(name) == "tcp"@,
        protocol_named(name) == Some(Protocol::Udp) <==> lower_all(name) == "udp"@,
{
    reveal_strlit("tcp");
    reveal_strlit("udp");
    assert("tcp"@[0] != "udp"@[0]);
}

impl Protocol {
    /// What the protocol is called.
    pub fn as_str(self) -> (r: &'static str)
        ensures
            r@ == protocol_name(self),
    {
        match self {
            Protocol::Tcp => "tcp",
            Protocol::Udp => "udp",
        }
    }
}

/// A rule that was checked: what is left is to look its host up, unless it is an
/// address already.
#[derive(Debug)]
pub struct EgressTarget {
    pub host: String,
    pub literal: Option<Ipv4>,
    pub protocol: Protocol,
    pub port: u16,
}

/// What is wrong with a rule, if anything.
pub open spec fn rule_verdict(index: nat, rule: EgressRuleRequest, is_ipv6: bool) -> Option<
    ErrorView,
> {
    let path = rule_path(index);
    match host_verdict(bare(rule.host@), is_ipv6) {
        Err(message) => Some(ErrorView::InvalidArgument(path + (".host "@ + message))),
        Ok(host) => if rule.port == 0 {
            Some(ErrorView::InvalidArgument(path + ".port must be between 1 and 65535"@))
        } else if protocol_named(rule.protocol@) is None {
            Some(ErrorView::InvalidArgument(path + ".protocol must be tcp or udp"@))
        } else if is_ipv6 && !is_ipv4(host) {
            Some(
                ErrorView::InvalidArgument(
                    path + ".host must resolve to IPv4; IPv6 egress is not supported"@,
                ),
            )
        } else {
            None
        },
    }
}

/// The target that a rule was checked into.
pub open spec fn is_target(rule: EgressRuleRequest, is_ipv6: bool, t: EgressTarget) -> bool {
    &&& host_verdict(bare(rule.host@), is_ipv6) == Ok::<Seq<char>, Seq<char>>(t.host@)
    &&& t.port == rule.port
    &&& protocol_named(rule.protocol@) == Some(t.protocol)
    &&& match t.literal {
        Some(ip) => t.host@ == dotted(ip),
        None => !is_ipv4(t.host@),
    }
}

/// A rule is taken exactly where its host is, it names a port and a protocol, and its host
/// is no address of the newer kind. What is refused is told with the place of the rule.
pub proof fn rules_are_refused_for_cause(index: nat, rule: EgressRuleRequest, is_ipv6: bool)
    ensures
        rule_verdict(index, rule, is_ipv6) is None <==> host_verdict(
            bare(rule.host@),
            is_ipv6,
        ) is Ok && rule.port != 0 && (lower_all(rule.protocol@) == "tcp"@ || lower_all(
            rule.protocol@,
        ) == "udp"@) && (is_ipv6 ==> is_ipv4(bare(rule.host@))),
        rule_verdict(index, rule, is_ipv6) matches Some(e) ==> e is InvalidArgument && occurs_at(
            e->InvalidArgument_0,
            rule_path(index),
            0,
        ),
        host_verdict(bare(rule.host@), is_ipv6) is Ok && rule.port == 0 ==> rule_verdict(
            index,
            rule,
            is_ipv6,
        ) == Some(
            ErrorView::InvalidArgument(rule_path(index) + ".port must be between 1 and 65535"@),
        ),
{
    if let Some(e) = rule_verdict(index, rule, is_ipv6) {
        let p = rule_path(index);
        assert(e->InvalidArgument_0.subrange(0, p.len() as int) =~= p);
    }
}

/// A checked rule keeps its port and its protocol, and is an address itself exactly where
/// its bare host spells one.
pub proof fn targets_are_what_their_rule_says(
    rule: EgressRuleRequest,
    is_ipv6: bool,
    t: EgressTarget,
    ip: Ipv4,
)
    requires
        is_target(rule, is_ipv6, t),
    ensures
        t.port == rule.port,
        lower_all(rule.protocol@) == protocol_name(t.protocol),
        bare(rule.host@) == dotted(ip) ==> t.literal == Some(ip) && t.host@ == dotted(ip),
        t.literal is Some ==> t.host@ == dotted(t.literal->0),
{
    if bare(rule.host@) == dotted(ip) {
        assert(is_ipv4(bare(rule.host@)));
        if let Some(other) = t.literal {
            dotted_notation_is_unique(other, ip);
        }
    }
}

/// Check a rule. `is_ipv6` tells whether its bare host is an address in IPv6 notation.
pub fn check_rule(index: usize, rule: &EgressRuleRequest, is_ipv6: bool) -> (r: Result<
    EgressTarget,
    CoreError,
>)
    ensures
        match rule_verdict(index as nat, *rule, is_ipv6) {
            Some(e) => r is Err && r->Err_0@ == e,
            None => r is Ok && is_target(*rule, is_ipv6, r->Ok_0),
        },
{
    let host = match validate_host(rule.host.as_str(), is_ipv6) {
        Ok(h) => h,
        Err(message) => {
            return Err(rule_fault(index, ".host ".to_owned().concat(message).as_str()));
        },
    };
    if rule.port == 0 {
        return Err(rule_fault(index, ".port must be between 1 and 65535"));
    }
    let protocol = match parse_protocol(rule.protocol.as_str()) {
        Some(p) => p,
        None => {
            return Err(rule_fault(index, ".protocol must be tcp or udp"));
        },
    };
    let literal = parse_ipv4(host.as_str());
    if is_ipv6 && literal.is_none() {
        return Err(
            rule_fault(index, ".host must resolve to IPv4; IPv6 egress is not supported"),
        );
    }
    Ok(EgressTarget { host, literal, protocol, port: rule.port })
}

/// What failing to look a host up is reported as.
pub open spec fn lookup_failure(index: nat, error: Seq<char>) -> ErrorView {
    ErrorView::InvalidArgument(rule_path(index) + (".host could not be resolved: "@ + error))
}

/// A failed lookup tells which rule it was made for, and why it failed.
pub proof fn failed_lookups_are_told_with_the_reason(index: nat, error: Seq<char>)
    ensures
        lookup_failure(index, error) is InvalidArgument,
        occurs_at(lookup_failure(index, error)->InvalidArgument_0, rule_path(index), 0),
        has_suffix(lookup_failure(index, error)->InvalidArgument_0, error),
        occurs(rule_path(index), decimal(index)),
{
    let p = rule_path(index);
    let t = lookup_failure(index, error)->InvalidArgument_0;
    assert(t.subrange(0, p.len() as int) =~= p);
    assert(t =~= p + ".host could not be resolved: "@ + error);
    assert(t.skip(t.len() - error.len()) =~= error);
    assert(t.subrange(t.len() - error.len(), t.len() as int) =~= error);
    stands_between("egress["@, decimal(index), "]"@);
}

/// What failing to look a host up is reported as.
pub fn lookup_failed(index: usize, error: &str) -> (e: CoreError)
    ensures
        e@ == lookup_failure(index as nat, error@),
{
    rule_fault(index, ".host could not be resolved: ".to_owned().concat(error).as_str())
}

// ---------------------------------------------------------------------------
// Destinations
// ---------------------------------------------------------------------------

/// The place of a destination in the order of destinations: by address, then by
/// protocol, then by port.
pub open spec fn rank(r: ResolvedEgressRule) -> int {
    let ip = r.destination.a * 16777216 + r.destination.b * 65536 + r.destination.c * 256
        + r.destination.d;
    let p: int = match r.protocol {
        Protocol::Tcp => 0,
        Protocol::Udp => 1,
    };
    (ip * 2 + p) * 65536 + r.port
}

fn rank_key(r: &ResolvedEgressRule) -> (k: u64)
    ensures
        k == rank(*r),
{
    let ip: u64 = r.destination.a as u64 * 16777216 + r.destination.b as u64 * 65536
        + r.destination.c as u64 * 256 + r.destination.d as u64;
    let p: u64 = match r.protocol {
        Protocol::Tcp => 0,
        Protocol::Udp => 1,
    };
    (ip * 2 + p) * 65536 + r.port as u64
}

/// The order tells destinations apart.
pub proof fn ranks_are_unique(a: ResolvedEgressRule, b: ResolvedEgressRule)
    requires
        rank(a) == rank(b),
    ensures
        a == b,
{
    rank_digits(a);
    rank_digits(b);
}

spec fn address_number(ip: Ipv4) -> int {
    ip.a * 16777216 + ip.b * 65536 + ip.c * 256 + ip.d
}

proof fn rank_digits(r: ResolvedEgressRule)
    ensures
        r.port == rank(r) % 65536,
        r.protocol == (if (rank(r) / 65536) % 2 == 0 {
            Protocol::Tcp
        } else {
            Protocol::Udp
        }),
        r.destination.d == (rank(r) / 131072) % 256,
        r.destination.c == (rank(r) / 131072 / 256) % 256,
        r.destination.b == (rank(r) / 131072 / 65536) % 256,
        r.destination.a == rank(r) / 131072 / 16777216,
{
    let ip = address_number(r.destination);
    let p: int = match r.protocol {
        Protocol::Tcp => 0,
        Protocol::Udp => 1,
    };
    let q = ip * 2 + p;
    assert(rank(r) == q * 65536 + r.port);
    assert(rank(r) / 65536 == q && rank(r) % 65536 == r.port);
    assert(q / 2 == ip && q % 2 == p);
    assert(rank(r) / 131072 == ip);
    address_digits(r.destination);
}

proof fn address_digits(ip: Ipv4)
    ensures
        ip.d == address_number(ip) % 256,
        ip.c == (address_number(ip) / 256) % 256,
        ip.b == (address_number(ip) / 65536) % 256,
        ip.a == address_number(ip) / 16777216,
{
    let n = address_number(ip);
    assert(n / 256 == ip.a * 65536 + ip.b * 256 + ip.c);
    assert(n / 65536 == ip.a * 256 + ip.b);
    assert(n / 16777216 == ip.a);
}

/// Destinations go by their addresses, octet by octet; those of one address go TCP before
/// UDP; and those of one protocol by their ports.
pub proof fn ranks_go_by_address_protocol_and_port(x: ResolvedEgressRule, y: ResolvedEgressRule)
    ensures
        x.destination.a < y.destination.a ==> rank(x) < rank(y),
        x.destination.a == y.destination.a && x.destination.b < y.destination.b ==> rank(x) < rank(
            y,
        ),
        x.destination.a == y.destination.a && x.destination.b == y.destination.b && x.destination.c
            < y.destination.c ==> rank(x) < rank(y),
        x.destination.a == y.destination.a && x.destination.b == y.destination.b && x.destination.c
            == y.destination.c && x.destination.d < y.destination.d ==> rank(x) < rank(y),
        x.destination == y.destination && x.protocol == Protocol::Tcp && y.protocol == Protocol::Udp
            ==> rank(x) < rank(y),
        x.destination == y.destination && x.protocol == y.protocol && x.port < y.port ==> rank(x)
            < rank(y),
{
}

/// The destinations with one more, in order and without repetition.
pub open spec fn placed(s: Seq<ResolvedEgressRule>, r: ResolvedEgressRule) -> Seq<
    ResolvedEgressRule,
>
    decreases s.len(),
{
    if s.len() == 0 {
        seq![r]
    } else if rank(s[0]) == rank(r) {
        s
    } else if rank(s[0]) > rank(r) {
        seq![r] + s
    } else {
        seq![s[0]] + placed(s.skip(1), r)
    }
}

/// The destinations are in order, and none occurs twice.
pub open spec fn ordered(s: Seq<ResolvedEgressRule>) -> bool {
    forall|i: int, j: int| 0 <= i < j < s.len() ==> rank(#[trigger] s[i]) < rank(#[trigger] s[j])
}

proof fn placed_at(s: Seq<ResolvedEgressRule>, r: ResolvedEgressRule, k: int)
    requires
        0 <= k <= s.len(),
        forall|i: int| 0 <= i < k ==> rank(#[trigger] s[i]) < rank(r),
        k < s.len() ==> rank(s[k]) >= rank(r),
    ensures
        placed(s, r) == (if k < s.len() && rank(s[k]) == rank(r) {
            s
        } else {
            s.insert(k, r)
        }),
    decreases s.len(),
{
    if s.len() == 0 {
        assert(s.insert(0, r) =~= seq![r]);
    } else if k == 0 {
        assert(s.insert(0, r) =~= seq![r] + s);
    } else {
        let t = s.skip(1);
        assert forall|i: int| 0 <= i < k - 1 implies rank(#[trigger] t[i]) < rank(r) by {
            assert(t[i] == s[i + 1]);
        }
        if k < s.len() {
            assert(t[k - 1] == s[k]);
        }
        placed_at(t, r, k - 1);
        assert(seq![s[0]] + t =~= s);
        assert(seq![s[0]] + t.insert(k - 1, r) =~= s.insert(k, r));
    }
}

fn place(v: &mut Vec<ResolvedEgressRule>, r: ResolvedEgressRule)
    ensures
        final(v)@ == placed(old(v)@, r),
{
    let key = rank_key(&r);
    let mut k: usize = 0;
    while k < v.len()
        invariant
            k <= v@.len(),
            v@ == old(v)@,
            key == rank(r),
            forall|i: int| 0 <= i < k ==> rank(#[trigger] v@[i]) < rank(r),
        decreases v.len() - k,
    {
        let here = rank_key(&v[k]);
        if here >= key {
            proof {
                placed_at(v@, r, k as int);
            }
            if here > key {
                v.insert(k, r);
            }
            return;
        }
        k += 1;
    }
    proof {
        placed_at(v@, r, k as int);
    }
    v.insert(k, r);
}

/// Placing a destination keeps the order, adds the destination, and adds nothing else.
pub proof fn placing_keeps_order(s: Seq<ResolvedEgressRule>, r: ResolvedEgressRule)
    requires
        ordered(s),
    ensures
        ordered(placed(s, r)),
        placed(s, r).to_set() =~= s.to_set().insert(r),
        s.len() <= placed(s, r).len() <= s.len() + 1,
{
    let k = first_at_least(s, r);
    first_at_least_is(s, r);
    placed_at(s, r, k);
    let t = placed(s, r);
    if k < s.len() && rank(s[k]) == rank(r) {
        ranks_are_unique(s[k], r);
        assert(s.contains(r));
        assert(t.to_set() =~= s.to_set().insert(r));
    } else {
        assert forall|i: int, j: int| 0 <= i < j < t.len() implies rank(#[trigger] t[i]) < rank(
            #[trigger] t[j],
        ) by {
            let x = if i < k { i } else { i - 1 };
            let y = if j < k { j } else { j - 1 };
            if i != k {
                assert(t[i] == s[x]);
            }
            if j != k {
                assert(t[j] == s[y]);
            }
            if j > k && i == k {
                assert(rank(s[y]) >= rank(s[k]));
            }
        }
        assert forall|x: ResolvedEgressRule| #[trigger]
            t.to_set().contains(x) <==> s.to_set().insert(r).contains(x) by {
            if t.contains(x) {
                let i = choose|i: int| 0 <= i < t.len() && t[i] == x;
                if i != k {
                    let y = if i < k { i } else { i - 1 };
                    assert(s[y] == x);
                }
            }
            if s.contains(x) {
                let y = choose|y: int| 0 <= y < s.len() && s[y] == x;
                let i = if y < k { y } else { y + 1 };
                assert(t[i] == x);
            }
            assert(t[k] == r);
        }
    }
}

spec fn first_at_least(s: Seq<ResolvedEgressRule>, r: ResolvedEgressRule) -> int
    decreases s.len(),
{
    if s.len() == 0 || rank(s[0]) >= rank(r) {
        0
    } else {
        1 + first_at_least(s.skip(1), r)
    }
}

proof fn first_at_least_is(s: Seq<ResolvedEgressRule>, r: ResolvedEgressRule)
    ensures
        0 <= first_at_least(s, r) <= s.len(),
        forall|i: int| 0 <= i < first_at_least(s, r) ==> rank(#[trigger] s[i]) < rank(r),
        first_at_least(s, r) < s.len() ==> rank(s[first_at_least(s, r)]) >= rank(r),
    decreases s.len(),
{
    if s.len() > 0 && rank(s[0]) < rank(r) {
        let t = s.skip(1);
        first_at_least_is(t, r);
        assert forall|i: int| 0 <= i < first_at_least(s, r) implies rank(#[trigger] s[i]) < rank(
            r,
        ) by {
            if i > 0 {
                assert(s[i] == t[i - 1]);
            }
        }
    }
}

/// The destinations of a target, in order.
pub open spec fn destinations(addresses: Seq<Ipv4>, protocol: Protocol, port: u16) -> Seq<
    ResolvedEgressRule,
>
    decreases addresses.len(),
{
    if addresses.len() == 0 {
        Seq::empty()
    } else {
        placed(
            destinations(addresses.drop_last(), protocol, port),
            ResolvedEgressRule { destination: addresses.last(), protocol, port },
        )
    }
}

/// The destinations of a request with those of one more rule: the first fault counts.
pub open spec fn absorbed(
    s: Seq<ResolvedEgressRule>,
    path: Seq<char>,
    more: Seq<ResolvedEgressRule>,
) -> Result<Seq<ResolvedEgressRule>, ErrorView>
    decreases more.len(),
{
    if more.len() == 0 {
        Ok(s)
    } else if non_unicast(more[0].destination) {
        Err(
            ErrorView::InvalidArgument(
                path + (".host resolved to non-unicast address "@ + dotted(more[0].destination)),
            ),
        )
    } else if placed(s, more[0]).len() > MAX_RESOLVED_EGRESS_RULES {
        Err(
            ErrorView::InvalidArgument(
                "egress resolves to more than 128 concrete destinations"@,
            ),
        )
    } else {
        absorbed(placed(s, more[0]), path, more.skip(1))
    }
}

/// The view of the destinations of a request.
pub open spec fn rules_view(r: Result<Vec<ResolvedEgressRule>, CoreError>) -> Result<
    Seq<ResolvedEgressRule>,
    ErrorView,
> {
    match r {
        Ok(v) => Ok(v@),
        Err(e) => Err(e@),
    }
}

/// The destinations of a request with those of the rule at this place: what its host was
/// looked up to, each with the rule's protocol and port.
pub open spec fn absorbing(
    rules: Seq<ResolvedEgressRule>,
    index: nat,
    addresses: Seq<Ipv4>,
    protocol: Protocol,
    port: u16,
) -> Result<Seq<ResolvedEgressRule>, ErrorView> {
    if addresses.len() == 0 {
        Err(
            ErrorView::InvalidArgument(
                rule_path(index) + ".host resolved to no IPv4 addresses"@,
            ),
        )
    } else {
        absorbed(rules, rule_path(index), destinations(addresses, protocol, port))
    }
}

/// Take the destinations of one more rule into those of the request.
pub fn absorb(
    rules: Vec<ResolvedEgressRule>,
    index: usize,
    target: &EgressTarget,
    addresses: &Vec<Ipv4>,
) -> (r: Result<Vec<ResolvedEgressRule>, CoreError>)
    ensures
        rules_view(r) == absorbing(
            rules@,
            index as nat,
            addresses@,
            target.protocol,
            target.port,
        ),
{
    if addresses.len() == 0 {
        return Err(rule_fault(index, ".host resolved to no IPv4 addresses"));
    }
    let mut more: Vec<ResolvedEgressRule> = Vec::new();
    let mut i: usize = 0;
    proof {
        assert(addresses@.take(0) =~= Seq::empty());
    }
    while i < addresses.len()
        invariant
            i <= addresses@.len(),
            more@ == destinations(addresses@.take(i as int), target.protocol, target.port),
        decreases addresses.len() - i,
    {
        place(
            &mut more,
            ResolvedEgressRule {
                destination: addresses[i],
                protocol: target.protocol,
                port: target.port,
            },
        );
        proof {
            assert(addresses@.take(i + 1).drop_last() =~= addresses@.take(i as int));
            assert(addresses@.take(i + 1).last() == addresses@[i as int]);
        }
        i += 1;
    }
    proof {
        assert(addresses@.take(i as int) =~= addresses@);
    }
    let ghost path = rule_path(index as nat);
    let ghost all = more@;
    let mut resolved = rules;
    let mut k: usize = 0;
    proof {
        assert(all.skip(0) =~= all);
    }
    while k < more.len()
        invariant
            k <= more@.len(),
            more@ == all,
            all == destinations(addresses@, target.protocol, target.port),
            addresses@.len() > 0,
            path == rule_path(index as nat),
            absorbed(resolved@, path, all.skip(k as int)) == absorbed(rules@, path, all),
        decreases more.len() - k,
    {
        proof {
            assert(all.skip(k as int)[0] == all[k as int]);
            assert(all.skip(k as int).skip(1) =~= all.skip(k + 1));
        }
        if is_non_unicast(&more[k].destination) {
            return Err(
                rule_fault(
                    index,
                    ".host resolved to non-unicast address ".to_owned().concat(
                        more[k].destination.text().as_str(),
                    ).as_str(),
                ),
            );
        }
        place(&mut resolved, more[k]);
        if resolved.len() > MAX_RESOLVED_EGRESS_RULES {
            return Err(
                CoreError::InvalidArgument(
                    "egress resolves to more than 128 concrete destinations".to_owned(),
                ),
            );
        }
        k += 1;
    }
    Ok(resolved)
}

/// What comes of a request is in order, without repetition, within the limit, and made
/// of unicast destinations only.
pub open spec fn enforceable(s: Seq<ResolvedEgressRule>) -> bool {
    &&& ordered(s)
    &&& s.len() <= MAX_RESOLVED_EGRESS_RULES
    &&& forall|i: int| 0 <= i < s.len() ==> !non_unicast((#[trigger] s[i]).destination)
}

/// Whatever rules are taken in, what comes of a request can be enforced.
pub proof fn absorbed_rules_are_enforceable(
    s: Seq<ResolvedEgressRule>,
    path: Seq<char>,
    more: Seq<ResolvedEgressRule>,
)
    requires
        enforceable(s),
    ensures
        absorbed(s, path, more) matches Ok(t) ==> enforceable(t) && t.to_set() =~= s.to_set().union(
            more.to_set(),
        ),
    decreases more.len(),
{
    if more.len() == 0 {
        assert(s.to_set().union(more.to_set()) =~= s.to_set());
    } else if !non_unicast(more[0].destination) && placed(s, more[0]).len()
        <= MAX_RESOLVED_EGRESS_RULES {
        let t = placed(s, more[0]);
        placing_keeps_order(s, more[0]);
        assert forall|i: int| 0 <= i < t.len() implies !non_unicast((#[trigger] t[i]).destination)
            by {
            assert(t.to_set().contains(t[i]));
            if t[i] != more[0] {
                assert(s.contains(t[i]));
                let y = choose|y: int| 0 <= y < s.len() && s[y] == t[i];
                assert(!non_unicast(s[y].destination));
            }
        }
        absorbed_rules_are_enforceable(t, path, more.skip(1));
        if absorbed(t, path, more.skip(1)) is Ok {
            let u = absorbed(t, path, more.skip(1))->Ok_0;
            assert(u.to_set() =~= s.to_set().union(more.to_set())) by {
                assert forall|x: ResolvedEgressRule|
                    more.contains(x) <==> x == more[0] || more.skip(1).contains(x) by {
                    if more.contains(x) && x != more[0] {
                        let i = choose|i: int| 0 <= i < more.len() && more[i] == x;
                        assert(more.skip(1)[i - 1] == x);
                    }
                    if more.skip(1).contains(x) {
                        let i = choose|i: int|
                            0 <= i < more.skip(1).len() && more.skip(1)[i] == x;
                        assert(more[i + 1] == x);
                    }
                    assert(more.contains(more[0]));
                }
                assert forall|x: ResolvedEgressRule| #[trigger]
                    u.to_set().contains(x) <==> s.to_set().union(more.to_set()).contains(x) by {
                    assert(more.to_set().contains(x) <==> more.contains(x));
                    assert(more.skip(1).to_set().contains(x) <==> more.skip(1).contains(x));
                }
            }
        }
    }
}

// ---------------------------------------------------------------------------
// Requests
// ---------------------------------------------------------------------------

/// What was found out about the host of a rule.
#[derive(Debug)]
pub struct HostLookup {
    /// The bare host is an address in IPv6 notation.
    pub is_ipv6: bool,
    /// The IPv4 addresses that its name was looked up to, or why that failed. It counts
    /// only where the host is no address itself.
    pub answer: Result<Vec<Ipv4>, String>,
}

/// The addresses that a rule stands for, or what is wrong with it.
pub open spec fn rule_addresses(index: nat, rule: EgressRuleRequest, lookup: HostLookup) -> Result<
    Seq<Ipv4>,
    ErrorView,
> {
    let host = host_verdict(bare(rule.host@), lookup.is_ipv6)->Ok_0;
    match rule_verdict(index, rule, lookup.is_ipv6) {
        Some(e) => Err(e),
        None => if is_ipv4(host) {
            Ok(seq![choose|ip: Ipv4| host == #[trigger] dotted(ip)])
        } else {
            match lookup.answer {
                Ok(addresses) => Ok(addresses@),
                Err(why) => Err(lookup_failure(index, why@)),
            }
        },
    }
}

/// The destinations of the rules of a request: the first fault counts.
pub open spec fn resolved_rules(rules: Seq<EgressRuleRequest>, lookups: Seq<HostLookup>) -> Result<
    Seq<ResolvedEgressRule>,
    ErrorView,
>
    decreases rules.len(),
{
    if rules.len() == 0 {
        Ok(Seq::empty())
    } else {
        let i = (rules.len() - 1) as nat;
        let before = resolved_rules(rules.drop_last(), lookups);
        match (before, rule_addresses(i, rules.last(), lookups[i as int])) {
            (Err(e), _) => Err(e),
            (_, Err(e)) => Err(e),
            (Ok(s), Ok(addresses)) => absorbing(
                s,
                i,
                addresses,
                protocol_named(rules.last().protocol@)->0,
                rules.last().port,
            ),
        }
    }
}

proof fn fault_stays(rules: Seq<EgressRuleRequest>, lookups: Seq<HostLookup>, n: int)
    requires
        0 <= n <= rules.len(),
        resolved_rules(rules.take(n), lookups) is Err,
    ensures
        resolved_rules(rules, lookups) == resolved_rules(rules.take(n), lookups),
    decreases rules.len(),
{
    if n < rules.len() {
        assert(rules.drop_last().take(n) =~= rules.take(n));
        fault_stays(rules.drop_last(), lookups, n);
    } else {
        assert(rules.take(n) =~= rules);
    }
}

/// The destinations that a request lets a VM reach.
pub open spec fn resolution(requested: Seq<EgressRuleRequest>, lookups: Seq<HostLookup>) -> Result<
    Seq<ResolvedEgressRule>,
    ErrorView,
> {
    match count_verdict(requested.len()) {
        Err(e) => Err(e),
        Ok(_) => resolved_rules(requested, lookups),
    }
}

/// The destinations that a request lets a VM reach, from what its hosts were looked up
/// to.
pub fn resolve_egress_rules(
    requested: &Vec<EgressRuleRequest>,
    lookups: &Vec<HostLookup>,
) -> (r: Result<Vec<ResolvedEgressRule>, CoreError>)
    requires
        lookups@.len() == requested@.len(),
    ensures
        rules_view(r) == resolution(requested@, lookups@),
{
    match check_rule_count(requested.len()) {
        Ok(_) => {},
        Err(e) => { return Err(e); },
    }
    let mut resolved: Vec<ResolvedEgressRule> = Vec::new();
    let mut i: usize = 0;
    proof {
        assert(requested@.take(0) =~= Seq::empty());
        assert(resolved@ =~= Seq::empty());
    }
    while i < requested.len()
        invariant
            i <= requested@.len() == lookups@.len() <= MAX_REQUESTED_EGRESS_RULES,
            resolved_rules(requested@.take(i as int), lookups@) == Ok::<
                Seq<ResolvedEgressRule>,
                ErrorView,
            >(resolved@),
        decreases requested.len() - i,
    {
        let rule = &requested[i];
        let lookup = &lookups[i];
        proof {
            let head = requested@.take(i + 1);
            assert(head.drop_last() =~= requested@.take(i as int));
            assert(head.last() == rule);
            assert(head.len() - 1 == i);
            if resolved_rules(head, lookups@) is Err {
                fault_stays(requested@, lookups@, i + 1);
            }
        }
        let target = match check_rule(i, rule, lookup.is_ipv6) {
            Ok(t) => t,
            Err(e) => { return Err(e); },
        };
        let absorbed_now = match target.literal {
            Some(ip) => {
                let addresses: Vec<Ipv4> = vec![ip];
                proof {
                    let a = choose|a: Ipv4| target.host@ == #[trigger] dotted(a);
                    dotted_notation_is_unique(a, ip);
                    assert(addresses@ =~= seq![a]);
                }
                absorb(resolved, i, &target, &addresses)
            },
            None => match &lookup.answer {
                Ok(addresses) => absorb(resolved, i, &target, addresses),
                Err(why) => { return Err(lookup_failed(i, why.as_str())); },
            },
        };
        resolved = match absorbed_now {
            Ok(v) => v,
            Err(e) => { return Err(e); },
        };
        i += 1;
    }
    proof {
        assert(requested@.take(i as int) =~= requested@);
    }
    Ok(resolved)
}

/// The rule at this place of a request leads to the destination: it asks for the
/// protocol and the port, and the address is one of those that it stands for.
pub open spec fn leads_to(
    rules: Seq<EgressRuleRequest>,
    lookups: Seq<HostLookup>,
    k: int,
    d: ResolvedEgressRule,
) -> bool {
    &&& protocol_named(rules[k].protocol@) == Some(d.protocol)
    &&& rules[k].port == d.port
    &&& rule_addresses(k as nat, rules[k], lookups[k]) is Ok
    &&& rule_addresses(k as nat, rules[k], lookups[k])->Ok_0.contains(d.destination)
}

proof fn destinations_are_of_their_target(addresses: Seq<Ipv4>, protocol: Protocol, port: u16)
    ensures
        ordered(destinations(addresses, protocol, port)),
        addresses.len() > 0 ==> destinations(addresses, protocol, port).len() > 0,
        forall|d: ResolvedEgressRule| #[trigger]
            destinations(addresses, protocol, port).contains(d) <==> d.protocol == protocol
                && d.port == port && addresses.contains(d.destination),
    decreases addresses.len(),
{
    if addresses.len() > 0 {
        let head = addresses.drop_last();
        let r = ResolvedEgressRule { destination: addresses.last(), protocol, port };
        let s = destinations(head, protocol, port);
        let t = destinations(addresses, protocol, port);
        destinations_are_of_their_target(head, protocol, port);
        placing_keeps_order(s, r);
        assert(t.to_set().contains(r));
        assert forall|d: ResolvedEgressRule| #[trigger] t.contains(d) <==> d.protocol == protocol
            && d.port == port && addresses.contains(d.destination) by {
            assert(t.to_set().contains(d) <==> t.contains(d));
            assert(s.to_set().contains(d) <==> s.contains(d));
            if t.contains(d) {
                if d == r {
                    assert(addresses[addresses.len() - 1] == d.destination);
                } else {
                    let k = choose|k: int| 0 <= k < head.len() && head[k] == d.destination;
                    assert(addresses[k] == d.destination);
                }
            }
            if d.protocol == protocol && d.port == port && addresses.contains(d.destination) {
                let k = choose|k: int| 0 <= k < addresses.len() && addresses[k] == d.destination;
                if k < head.len() {
                    assert(head[k] == d.destination);
                } else {
                    assert(d == r);
                }
            }
        }
    }
}

/// What a request resolves to can be enforced, and is exactly what its rules stand for:
/// every address of each rule, with the rule's protocol and port, and nothing else.
pub proof fn requests_resolve_to_their_own_destinations(
    rules: Seq<EgressRuleRequest>,
    lookups: Seq<HostLookup>,
)
    requires
        resolved_rules(rules, lookups) is Ok,
    ensures
        enforceable(resolved_rules(rules, lookups)->Ok_0),
        forall|d: ResolvedEgressRule| #[trigger]
            resolved_rules(rules, lookups)->Ok_0.contains(d) <==> exists|k: int|
                0 <= k < rules.len() && #[trigger] leads_to(rules, lookups, k, d),
        rules.len() > 0 ==> resolved_rules(rules, lookups)->Ok_0.len() > 0,
    decreases rules.len(),
{
    let all = resolved_rules(rules, lookups)->Ok_0;
    if rules.len() == 0 {
        assert(enforceable(all));
    } else {
        let i = (rules.len() - 1) as nat;
        let head = rules.drop_last();
        let rule = rules.last();
        requests_resolve_to_their_own_destinations(head, lookups);
        let s = resolved_rules(head, lookups)->Ok_0;
        let addresses = rule_addresses(i, rule, lookups[i as int])->Ok_0;
        let protocol = protocol_named(rule.protocol@)->0;
        let more = destinations(addresses, protocol, rule.port);
        absorbed_rules_are_enforceable(s, rule_path(i), more);
        destinations_are_of_their_target(addresses, protocol, rule.port);
        assert forall|d: ResolvedEgressRule| #[trigger] all.contains(d) <==> exists|k: int|
            0 <= k < rules.len() && #[trigger] leads_to(rules, lookups, k, d) by {
            assert(all.to_set().contains(d) <==> all.contains(d));
            assert(s.to_set().contains(d) <==> s.contains(d));
            assert(more.to_set().contains(d) <==> more.contains(d));
            assert(s.to_set().union(more.to_set()).contains(d) <==> all.contains(d));
            if s.contains(d) {
                let k = choose|k: int|
                    0 <= k < head.len() && #[trigger] leads_to(head, lookups, k, d);
                assert(rules[k] == head[k]);
                assert(leads_to(rules, lookups, k, d));
            }
            if more.contains(d) {
                assert(leads_to(rules, lookups, i as int, d));
            }
            if exists|k: int| 0 <= k < rules.len() && #[trigger] leads_to(rules, lookups, k, d) {
                let k = choose|k: int|
                    0 <= k < rules.len() && #[trigger] leads_to(rules, lookups, k, d);
                if k < i {
                    assert(rules[k] == head[k]);
                    assert(leads_to(head, lookups, k, d));
                } else {
                    assert(more.contains(d));
                }
            }
        }
        assert(more.to_set().contains(more[0]));
        assert(all.to_set().contains(more[0]));
    }
}

proof fn room_is_enough(
    s: Seq<ResolvedEgressRule>,
    path: Seq<char>,
    more: Seq<ResolvedEgressRule>,
)
    requires
        ordered(s),
        s.len() + more.len() <= 128,
        forall|i: int| 0 <= i < more.len() ==> !non_unicast((#[trigger] more[i]).destination),
    ensures
        absorbed(s, path, more) is Ok,
    decreases more.len(),
{
    if more.len() > 0 {
        let rest = more.skip(1);
        placing_keeps_order(s, more[0]);
        assert forall|i: int| 0 <= i < rest.len() implies !non_unicast(
            (#[trigger] rest[i]).destination,
        ) by {
            assert(rest[i] == more[i + 1]);
        }
        room_is_enough(placed(s, more[0]), path, rest);
    }
}

proof fn destinations_are_few(addresses: Seq<Ipv4>, protocol: Protocol, port: u16)
    ensures
        destinations(addresses, protocol, port).len() <= addresses.len(),
    decreases addresses.len(),
{
    if addresses.len() > 0 {
        let head = addresses.drop_last();
        destinations_are_few(head, protocol, port);
        destinations_are_of_their_target(head, protocol, port);
        placing_keeps_order(
            destinations(head, protocol, port),
            ResolvedEgressRule { destination: addresses.last(), protocol, port },
        );
    }
}

/// A rule is taken into a request where its host was looked up to unicast addresses and
/// there is room for them. One whose host has no address is refused, and so is one with an
/// address that is not unicast: none is skipped.
pub proof fn rules_are_taken_in_whole(
    rules: Seq<ResolvedEgressRule>,
    index: nat,
    addresses: Seq<Ipv4>,
    protocol: Protocol,
    port: u16,
    k: int,
)
    requires
        enforceable(rules),
    ensures
        addresses.len() == 0 ==> absorbing(rules, index, addresses, protocol, port) is Err,
        0 <= k < addresses.len() && non_unicast(addresses[k]) ==> absorbing(
            rules,
            index,
            addresses,
            protocol,
            port,
        ) is Err,
        addresses.len() > 0 && rules.len() + addresses.len() <= 128 && (forall|i: int|
            0 <= i < addresses.len() ==> !non_unicast(#[trigger] addresses[i])) ==> absorbing(
            rules,
            index,
            addresses,
            protocol,
            port,
        ) is Ok,
        absorbing(rules, index, addresses, protocol, port) matches Ok(t) ==> t.len() <= 128,
{
    let more = destinations(addresses, protocol, port);
    destinations_are_of_their_target(addresses, protocol, port);
    destinations_are_few(addresses, protocol, port);
    absorbed_rules_are_enforceable(rules, rule_path(index), more);
    if 0 <= k < addresses.len() && non_unicast(addresses[k]) {
        let d = ResolvedEgressRule { destination: addresses[k], protocol, port };
        assert(more.contains(d));
        if absorbed(rules, rule_path(index), more) is Ok {
            let t = absorbed(rules, rule_path(index), more)->Ok_0;
            assert(more.to_set().contains(d));
            assert(t.to_set().contains(d));
            let y = choose|y: int| 0 <= y < t.len() && t[y] == d;
            assert(!non_unicast(t[y].destination));
        }
    }
    if addresses.len() > 0 && rules.len() + addresses.len() <= 128 && (forall|i: int|
        0 <= i < addresses.len() ==> !non_unicast(#[trigger] addresses[i])) {
        assert forall|i: int| 0 <= i < more.len() implies !non_unicast(
            (#[trigger] more[i]).destination,
        ) by {
            assert(more.contains(more[i]));
            let y = choose|y: int| 0 <= y < addresses.len() && addresses[y] == more[i].destination;
            assert(!non_unicast(addresses[y]));
        }
        room_is_enough(rules, rule_path(index), more);
    }
}

/// A rule that names an address stands for that address alone, whatever a lookup said; one
/// that names a host stands for what the host was looked up to, and is refused where that
/// failed.
pub proof fn rules_stand_for_what_they_name(
    index: nat,
    rule: EgressRuleRequest,
    lookup: HostLookup,
    ip: Ipv4,
)
    requires
        rule_verdict(index, rule, lookup.is_ipv6) is None,
    ensures
        bare(rule.host@) == dotted(ip) ==> rule_addresses(index, rule, lookup) == Ok::<
            Seq<Ipv4>,
            ErrorView,
        >(seq![ip]),
        !is_ipv4(lower_all(bare(rule.host@))) && !is_ipv4(bare(rule.host@)) ==> match lookup.answer {
            Ok(addresses) => rule_addresses(index, rule, lookup) == Ok::<Seq<Ipv4>, ErrorView>(
                addresses@,
            ),
            Err(why) => rule_addresses(index, rule, lookup) == Err::<Seq<Ipv4>, ErrorView>(
                lookup_failure(index, why@),
            ),
        },
{
    if bare(rule.host@) == dotted(ip) {
        assert(is_ipv4(bare(rule.host@)));
        let a = choose|a: Ipv4| bare(rule.host@) == #[trigger] dotted(a);
        dotted_notation_is_unique(a, ip);
    }
}

/// A request is refused as a whole where one of its rules is, and the first fault is the one
/// that is told. A request without rules lets a VM reach nothing.
pub proof fn faulty_rules_refuse_the_request(
    rules: Seq<EgressRuleRequest>,
    lookups: Seq<HostLookup>,
    k: int,
)
    ensures
        rules.len() == 0 ==> resolution(rules, lookups) == Ok::<
            Seq<ResolvedEgressRule>,
            ErrorView,
        >(Seq::empty()),
        rules.len() > 32 ==> resolution(rules, lookups) is Err,
        rules.len() <= 32 ==> resolution(rules, lookups) == resolved_rules(rules, lookups),
        0 <= k < rules.len() && rule_addresses(k as nat, rules[k], lookups[k]) is Err
            ==> resolution(rules, lookups) is Err,
        0 <= k < rules.len() <= 32 && resolved_rules(rules.take(k), lookups) is Ok
            && rule_addresses(k as nat, rules[k], lookups[k]) is Err ==> resolution(rules, lookups)
            == Err::<Seq<ResolvedEgressRule>, ErrorView>(
            rule_addresses(k as nat, rules[k], lookups[k])->Err_0,
        ),
{
    if 0 <= k < rules.len() && rule_addresses(k as nat, rules[k], lookups[k]) is Err {
        let head = rules.take(k + 1);
        assert(head.drop_last() =~= rules.take(k));
        assert(head.last() == rules[k]);
        assert(resolved_rules(head, lookups) is Err);
        fault_stays(rules, lookups, k + 1);
    }
}

} // verus!
