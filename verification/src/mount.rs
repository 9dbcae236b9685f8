//! Host directories that are shared into a guest.

use vstd::prelude::*;
use vstd::string::*;

use crate::path::{file_name, has_parent_segment, is_absolute};
#[allow(unused_imports)]
use crate::path::{
    climbs, file_name_of, file_names_stand_behind_the_last_slash, is_absolute_path, last_segment,
};
use crate::records::HostShare;
#[allow(unused_imports)]
use crate::records::ShareView;
use crate::text::{decimal_string, find, from_chars, str_eq, to_chars};
#[allow(unused_imports)]
use crate::text::{
    decimal, decimal_is_injective, first_index, first_index_bounds, first_index_is, has_suffix, occurs_at,
    split_on,
};

verus! {

/// The host part of a mount spec: what stands before the first colon.
pub open spec fn host_part(spec: Seq<char>) -> Seq<char> {
    spec.take(first_index(spec, ':'))
}

/// What stands behind the first colon of a mount spec.
pub open spec fn behind_host(spec: Seq<char>) -> Seq<char> {
    spec.skip(first_index(spec, ':') + 1)
}

/// Where a share without a guest path is mounted.
pub open spec fn default_guest_path(host: Seq<char>) -> Seq<char> {
    "/mnt/"@ + (match file_name_of(host) {
        Some(name) => name,
        None => "share"@,
    })
}

/// The name that the guest finds the share with this index under.
pub open spec fn share_tag(index: nat) -> Seq<char> {
    "fs"@ + decimal(index)
}

/// What is wrong with the guest path of a mount spec, if anything.
pub open spec fn guest_fault(spec: Seq<char>, guest: Seq<char>) -> Option<Seq<char>> {
    if guest.len() == 0 {
        Some("mount spec '"@ + spec + "': guest path is empty"@)
    } else if !is_absolute_path(guest) {
        Some("mount spec '"@ + spec + "': guest path must be absolute, got '"@ + guest + "'"@)
    } else {
        None
    }
}

/// What is wrong with the host path of a mount spec, if anything.
pub open spec fn host_fault(spec: Seq<char>) -> Option<Seq<char>> {
    let host = host_part(spec);
    if host.len() == 0 {
        Some("mount spec '"@ + spec + "': host path is empty"@)
    } else if !is_absolute_path(host) {
        Some("mount spec '"@ + spec + "': host path must be absolute, got '"@ + host + "'"@)
    } else if climbs(host) {
        Some("mount spec '"@ + spec + "': host path must not contain '..' components"@)
    } else {
        None
    }
}

/// The share that a `host[:guest][:ro]` mount spec describes. A second part that
/// is exactly `ro` makes the share read-only under the default guest path.
pub open spec fn mount_of(spec: Seq<char>, index: nat) -> Result<ShareView, Seq<char>> {
    let host = host_part(spec);
    let rest = behind_host(spec);
    let tag = share_tag(index);
    if host_fault(spec) is Some {
        Err(host_fault(spec)->0)
    } else if first_index(spec, ':') == spec.len() {
        Ok(ShareView { host, guest: default_guest_path(host), read_only: false, tag })
    } else if first_index(rest, ':') == rest.len() {
        if rest == "ro"@ {
            Ok(ShareView { host, guest: default_guest_path(host), read_only: true, tag })
        } else if guest_fault(spec, rest) is Some {
            Err(guest_fault(spec, rest)->0)
        } else {
            Ok(ShareView { host, guest: rest, read_only: false, tag })
        }
    } else {
        let guest = rest.take(first_index(rest, ':'));
        let option = rest.skip(first_index(rest, ':') + 1);
        if guest_fault(spec, guest) is Some {
            Err(guest_fault(spec, guest)->0)
        } else if option != "ro"@ {
            Err(
                "mount spec '"@ + spec + "': trailing option must be 'ro', got '"@ + option + "'"@,
            )
        } else {
            Ok(ShareView { host, guest, read_only: true, tag })
        }
    }
}

/// The view of a parsed mount spec.
pub open spec fn share_result(r: Result<HostShare, String>) -> Result<ShareView, Seq<char>> {
    match r {
        Ok(s) => Ok(s@),
        Err(e) => Err(e@),
    }
}

fn default_guest(host: &str) -> (r: String)
    ensures
        r@ == default_guest_path(host@),
{
    match file_name(host) {
        Some(name) => "/mnt/".to_owned().concat(name.as_str()),
        None => "/mnt/".to_owned().concat("share"),
    }
}

fn check_guest(spec: &str, guest: &str) -> (r: Result<(), String>)
    ensures
        r is Ok <==> guest_fault(spec@, guest@) is None,
        r matches Err(e) ==> guest_fault(spec@, guest@) == Some(e@),
{
    if guest.is_empty() {
        return Err("mount spec '".to_owned().concat(spec).concat("': guest path is empty"));
    }
    if !is_absolute(guest) {
        return Err(
            "mount spec '".to_owned().concat(spec).concat(
                "': guest path must be absolute, got '",
            ).concat(guest).concat("'"),
        );
    }
    Ok(())
}

/// Parse a `host:guest[:ro]` mount spec into a [`HostShare`].
///
/// - `host` must be a non-empty absolute path without `..` components.
/// - `guest` defaults to `/mnt/<basename of host>` when omitted.
/// - A 2-part spec whose second part is exactly `ro` is the host path, read-only,
///   with the default guest path. A custom guest path and read-only access take
///   all three parts.
/// - `tag` is `fs<index>`.
pub fn parse_mount_spec(spec: &str, index: usize) -> (r: Result<HostShare, String>)
    ensures
        share_result(r) == mount_of(spec@, index as nat),
{
    let v = to_chars(spec);
    proof {
        assert(v@.skip(0) == v@);
    }
    let colon = find(&v, 0, ':');
    let host = from_chars(&v, 0, colon);
    proof {
        assert(v@.subrange(0, colon as int) == host_part(spec@));
    }
    if host.as_str().is_empty() {
        return Err("mount spec '".to_owned().concat(spec).concat("': host path is empty"));
    }
    if !is_absolute(host.as_str()) {
        return Err(
            "mount spec '".to_owned().concat(spec).concat(
                "': host path must be absolute, got '",
            ).concat(host.as_str()).concat("'"),
        );
    }
    if has_parent_segment(host.as_str()) {
        return Err(
            "mount spec '".to_owned().concat(spec).concat(
                "': host path must not contain '..' components",
            ),
        );
    }
    let tag = "fs".to_owned().concat(decimal_string(index as u64).as_str());
    if colon == v.len() {
        let guest = default_guest(host.as_str());
        return Ok(HostShare { host, guest, read_only: false, tag });
    }
    let second = find(&v, colon + 1, ':');
    proof {
        assert(v@.skip(colon + 1) == behind_host(spec@));
    }
    if second == v.len() {
        let rest = from_chars(&v, colon + 1, v.len());
        proof {
            assert(rest@ == behind_host(spec@));
        }
        if str_eq(rest.as_str(), "ro") {
            let guest = default_guest(host.as_str());
            return Ok(HostShare { host, guest, read_only: true, tag });
        }
        check_guest(spec, rest.as_str())?;
        return Ok(HostShare { host, guest: rest, read_only: false, tag });
    }
    let guest = from_chars(&v, colon + 1, second);
    let option = from_chars(&v, second + 1, v.len());
    proof {
        let rest = behind_host(spec@);
        assert(guest@ == rest.take(first_index(rest, ':')));
        assert(option@ == rest.skip(first_index(rest, ':') + 1));
    }
    check_guest(spec, guest.as_str())?;
    if !str_eq(option.as_str(), "ro") {
        return Err(
            "mount spec '".to_owned().concat(spec).concat(
                "': trailing option must be 'ro', got '",
            ).concat(option.as_str()).concat("'"),
        );
    }
    Ok(HostShare { host, guest, read_only: true, tag })
}

/// Whatever is accepted is mounted from one absolute path to another, and the
/// host path never climbs.
pub proof fn accepted_mounts_are_absolute(spec: Seq<char>, index: nat)
    requires
        mount_of(spec, index) is Ok,
    ensures
        is_absolute_path(mount_of(spec, index)->Ok_0.host),
        !climbs(mount_of(spec, index)->Ok_0.host),
        is_absolute_path(mount_of(spec, index)->Ok_0.guest),
{
    reveal_strlit("/mnt/");
    let share = mount_of(spec, index)->Ok_0;
    let host = host_part(spec);
    assert(default_guest_path(host)[0] == "/mnt/"@[0]);
}

/// How mounts are written. A host path alone is mounted writable under its own name; with
/// a guest path, writable there; and with `ro` behind either, read-only.
pub proof fn mounts_say_what_is_shared_where(host: Seq<char>, guest: Seq<char>, index: nat)
    requires
        is_absolute_path(host),
        !climbs(host),
        !host.contains(':'),
        is_absolute_path(guest),
        !guest.contains(':'),
    ensures
        ({
            let here = default_guest_path(host);
            let tag = share_tag(index);
            &&& mount_of(host, index) == Ok::<ShareView, Seq<char>>(
                ShareView { host, guest: here, read_only: false, tag },
            )
            &&& mount_of(host + ":ro"@, index) == Ok::<ShareView, Seq<char>>(
                ShareView { host, guest: here, read_only: true, tag },
            )
            &&& mount_of(host + ":"@ + guest, index) == Ok::<ShareView, Seq<char>>(
                ShareView { host, guest, read_only: false, tag },
            )
            &&& mount_of(host + ":"@ + guest + ":ro"@, index) == Ok::<ShareView, Seq<char>>(
                ShareView { host, guest, read_only: true, tag },
            )
        }),
{
    reveal_strlit(":");
    reveal_strlit(":ro");
    reveal_strlit("ro");
    let n = host.len() as int;
    let g = guest.len() as int;
    assert forall|k: int| 0 <= k < n implies host[k] != ':' by {
        assert(host.contains(host[k]));
    }
    assert forall|k: int| 0 <= k < g implies guest[k] != ':' by {
        assert(guest.contains(guest[k]));
    }
    assert(guest != "ro"@) by {
        assert("ro"@[0] == 'r');
    }
    first_index_is(host, ':', n);
    assert(host.take(n) =~= host);
    let a = host + ":ro"@;
    first_index_is(a, ':', n);
    assert(a.take(n) =~= host);
    assert(a.skip(n + 1) =~= "ro"@);
    first_index_is("ro"@, ':', 2);
    let b = host + ":"@ + guest;
    first_index_is(b, ':', n);
    assert(b.take(n) =~= host);
    assert(b.skip(n + 1) =~= guest);
    first_index_is(guest, ':', g);
    let c = host + ":"@ + guest + ":ro"@;
    first_index_is(c, ':', n);
    assert(c.take(n) =~= host);
    let rest = c.skip(n + 1);
    assert(rest =~= guest + ":ro"@);
    first_index_is(rest, ':', g);
    assert(rest.take(g) =~= guest);
    assert(rest.skip(g + 1) =~= "ro"@);
}

/// A share is read-only exactly where its mount spec ends in `:ro`, and it shares the host
/// path that the spec begins with.
pub proof fn shares_are_read_only_where_the_spec_says_so(spec: Seq<char>, index: nat)
    requires
        mount_of(spec, index) is Ok,
    ensures
        mount_of(spec, index)->Ok_0.read_only <==> has_suffix(spec, ":ro"@),
        occurs_at(spec, mount_of(spec, index)->Ok_0.host, 0),
        mount_of(spec, index)->Ok_0.tag == share_tag(index),
{
    reveal_strlit(":ro");
    reveal_strlit("ro");
    let i = first_index(spec, ':');
    let n = spec.len() as int;
    first_index_bounds(spec, ':');
    assert(spec.subrange(0, i) =~= spec.take(i));
    let end = spec.subrange(n - 3, n);
    if i < n {
        let rest = behind_host(spec);
        let j = first_index(rest, ':');
        first_index_bounds(rest, ':');
        if has_suffix(spec, ":ro"@) {
            assert(end[0] == ':' && end[1] == 'r' && end[2] == 'o');
            assert(spec[n - 3] == ':' && spec[n - 2] == 'r' && spec[n - 1] == 'o');
            if j == rest.len() {
                if i < n - 3 {
                    assert(rest[n - 3 - i - 1] == ':');
                }
                if i > n - 3 {
                    assert(spec[i] == ':');
                }
                assert(rest =~= "ro"@);
            }
        }
        if j == rest.len() && rest == "ro"@ {
            assert(rest[0] == 'r' && rest[1] == 'o');
            assert(end =~= ":ro"@) by {
                assert(spec[n - 2] == rest[0] && spec[n - 1] == rest[1]);
            }
        }
        if j < rest.len() && rest.skip(j + 1) == "ro"@ {
            let option = rest.skip(j + 1);
            assert(option.len() == 2);
            assert(rest.len() == j + 3 && n == i + 1 + rest.len());
            assert(option[0] == 'r' && option[1] == 'o');
            assert(end =~= ":ro"@) by {
                assert(spec[n - 3] == rest[j]);
                assert(spec[n - 2] == option[0] && spec[n - 1] == option[1]);
            }
        }
    } else if has_suffix(spec, ":ro"@) {
        assert(end[0] == ':');
        assert(spec[n - 3] == ':');
    }
}

/// No two shares of a VM have the same tag.
pub proof fn tags_are_distinct(a: nat, b: nat)
    ensures
        a != b ==> share_tag(a) != share_tag(b),
        occurs_at(share_tag(a), "fs"@, 0),
{
    reveal_strlit("fs");
    assert(share_tag(a).subrange(0, 2) =~= "fs"@);
    if share_tag(a) == share_tag(b) {
        assert(share_tag(a).skip(2) =~= decimal(a));
        assert(share_tag(b).skip(2) =~= decimal(b));
        decimal_is_injective(a, b);
    }
}

/// A mount spec without a usable host path is refused, and so is one whose guest path is
/// not absolute or whose option is not `ro`.
pub proof fn unusable_mounts_are_refused(
    spec: Seq<char>,
    host: Seq<char>,
    guest: Seq<char>,
    option: Seq<char>,
    index: nat,
)
    requires
        !host.contains(':'),
        !guest.contains(':'),
    ensures
        (!is_absolute_path(host_part(spec)) || climbs(host_part(spec))) ==> mount_of(spec, index)
            is Err,
        guest != "ro"@ && !is_absolute_path(guest) ==> mount_of(host + ":"@ + guest, index) is Err,
        option != "ro"@ ==> mount_of(host + ":"@ + guest + ":"@ + option, index) is Err,
        !is_absolute_path(guest) ==> mount_of(host + ":"@ + guest + ":"@ + option, index) is Err,
{
    reveal_strlit(":");
    let n = host.len() as int;
    let g = guest.len() as int;
    assert forall|k: int| 0 <= k < n implies host[k] != ':' by {
        assert(host.contains(host[k]));
    }
    assert forall|k: int| 0 <= k < g implies guest[k] != ':' by {
        assert(guest.contains(guest[k]));
    }
    let b = host + ":"@ + guest;
    first_index_is(b, ':', n);
    assert(b.skip(n + 1) =~= guest);
    first_index_is(guest, ':', g);
    let c = host + ":"@ + guest + ":"@ + option;
    first_index_is(c, ':', n);
    let rest = c.skip(n + 1);
    assert(rest =~= guest + ":"@ + option);
    first_index_is(rest, ':', g);
    assert(rest.take(g) =~= guest);
    assert(rest.skip(g + 1) =~= option);
}

/// A share without a guest path is mounted under `/mnt`, by the name of its directory.
pub proof fn shares_are_mounted_under_their_own_name(dir: Seq<char>, name: Seq<char>)
    requires
        !name.contains('/'),
        name.len() > 0,
        name != "."@,
        name != ".."@,
    ensures
        default_guest_path(dir + "/"@ + name) == "/mnt/"@ + name,
        default_guest_path("/"@) == "/mnt/share"@,
{
    file_names_stand_behind_the_last_slash(dir, name);
    reveal_strlit("/");
    reveal_strlit("");
    reveal_strlit("/mnt/");
    reveal_strlit("share");
    reveal_strlit("/mnt/share");
    first_index_is("/"@, '/', 0);
    let none = Seq::<char>::empty();
    assert("/"@.take(0) =~= none && "/"@.skip(1) =~= none && ""@ =~= none);
    first_index_is(none, '/', 0);
    assert(split_on(none, '/') =~= seq![none]);
    let s = split_on("/"@, '/');
    assert(s =~= seq![none, none]);
    assert(s.drop_last() =~= seq![none]);
    assert(seq![none].drop_last() =~= Seq::empty());
    assert(last_segment(Seq::empty()) is None);
    assert(seq![none].last() == ""@ && s.last() == ""@);
    assert(last_segment(seq![none]) is None);
    assert(last_segment(s) is None);
    assert("/mnt/"@ + "share"@ =~= "/mnt/share"@);
}

} // verus!
