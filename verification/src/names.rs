//! Names that callers give to resources, and what the orchestrator makes of the
//! texts in their requests.

use vstd::prelude::*;
use vstd::string::*;

use crate::error::{invalid_argument, CoreError};
#[allow(unused_imports)]
use crate::error::{string_view, unit_view, ErrorView};
use crate::path::{extension, has_parent_segment, is_absolute};
#[allow(unused_imports)]
use crate::path::{climbs, extension_of, is_absolute_path};
use crate::text::{contains, decimal_string, is_space_char, starts_with, str_eq, to_chars, to_lower};
#[allow(unused_imports)]
use crate::text::{decimal, decimal_is_digits, decimal_is_injective, decimal_length_grows, is_alnum, has_suffix, is_digit, is_space, lower_all, occurs, occurs_at, opt_str_view, opt_view, split_on, stands_between};

verus! {

/// Maximum length of a user-supplied resource name, in bytes.
pub const MAX_RESOURCE_NAME_LEN: usize = 64;

/// Default agent-readiness wait (seconds) for direct-kernel microVMs.
pub const DEFAULT_READY_TIMEOUT_SECS: u64 = 120;

/// Default agent-readiness wait (seconds) for VMs that boot through firmware.
pub const UEFI_READY_TIMEOUT_SECS: u64 = 180;

/// The characters that a resource name may hold.
pub open spec fn name_char(c: char) -> bool {
    is_alnum(c) || c == '-' || c == '_' || c == '.'
}

/// `name` can be the name of a resource.
pub open spec fn valid_name(name: Seq<char>) -> bool {
    &&& 0 < name.len() <= MAX_RESOURCE_NAME_LEN
    &&& name[0] != '.'
    &&& forall|i: int| 0 <= i < name.len() ==> name_char(name[i])
}

/// What [`validate_resource_name`] says of `name`: the first rule that it breaks.
pub open spec fn name_verdict(kind: Seq<char>, name: Seq<char>) -> Result<(), ErrorView> {
    if name.len() == 0 {
        Err(ErrorView::InvalidArgument(kind + " name cannot be empty"@))
    } else if vstd::utf8::encode_utf8(name).len() > MAX_RESOURCE_NAME_LEN {
        Err(ErrorView::InvalidArgument(kind + " name exceeds maximum length of "@ + decimal(64)))
    } else if name[0] == '.' {
        Err(ErrorView::InvalidArgument(kind + " name '"@ + name + "' cannot start with '.'"@))
    } else if exists|i: int| 0 <= i < name.len() && !name_char(#[trigger] name[i]) {
        Err(
            ErrorView::InvalidArgument(
                kind + " name '"@ + name
                    + "' contains invalid character; allowed: [A-Za-z0-9._-]"@,
            ),
        )
    } else {
        Ok(())
    }
}

fn is_name_char(c: char) -> (r: bool)
    ensures
        r == name_char(c),
{
    ('a' <= c && c <= 'z') || ('A' <= c && c <= 'Z') || ('0' <= c && c <= '9') || c == '-'
        || c == '_' || c == '.'
}

/// Validate a user-supplied resource name before it is used in any host
/// filesystem path or persisted identifier.
pub fn validate_resource_name(kind: &str, name: &str) -> (r: Result<(), CoreError>)
    ensures
        unit_view(r) == name_verdict(kind@, name@),
{
    if name.is_empty() {
        return Err(CoreError::InvalidArgument(kind.to_owned().concat(" name cannot be empty")));
    }
    if name.as_bytes().len() > MAX_RESOURCE_NAME_LEN {
        let limit = decimal_string(MAX_RESOURCE_NAME_LEN as u64);
        return Err(
            CoreError::InvalidArgument(
                kind.to_owned().concat(" name exceeds maximum length of ").concat(limit.as_str()),
            ),
        );
    }
    let v = to_chars(name);
    if v[0] == '.' {
        return Err(
            CoreError::InvalidArgument(
                kind.to_owned().concat(" name '").concat(name).concat("' cannot start with '.'"),
            ),
        );
    }
    let mut i: usize = 0;
    while i < v.len()
        invariant
            i <= v@.len(),
            v@ == name@,
            0 < name@.len(),
            vstd::utf8::encode_utf8(name@).len() <= MAX_RESOURCE_NAME_LEN,
            name@[0] != '.',
            forall|k: int| 0 <= k < i ==> name_char(name@[k]),
        decreases v.len() - i,
    {
        if !is_name_char(v[i]) {
            proof {
                assert(!name_char(name@[i as int]));
            }
            return Err(
                CoreError::InvalidArgument(
                    kind.to_owned().concat(" name '").concat(name).concat(
                        "' contains invalid character; allowed: [A-Za-z0-9._-]",
                    ),
                ),
            );
        }
        i += 1;
    }
    Ok(())
}

/// The names that are accepted are exactly the valid ones: 1 to 64 ASCII
/// characters from `[A-Za-z0-9._-]`, the first of them no dot.
pub proof fn accepted_names_are_valid(kind: Seq<char>, name: Seq<char>)
    ensures
        name_verdict(kind, name) is Ok <==> valid_name(name),
{
    if forall|i: int| 0 <= i < name.len() ==> name_char(name[i]) {
        assert(vstd::utf8::is_ascii_chars(name)) by {
            assert forall|i: int| 0 <= i < name.len() implies '\0' <= #[trigger] name[i] <= '\u{7f}' by {
                assert(name_char(name[i]));
            }
        }
        vstd::utf8::is_ascii_chars_encode_utf8(name);
    }
}

/// No accepted name can lead out of the directory that it is joined to: it holds
/// no path separator, no NUL and no space, and is neither `.` nor `..`.
pub proof fn accepted_names_stay_in_their_directory(kind: Seq<char>, name: Seq<char>)
    requires
        name_verdict(kind, name) is Ok,
    ensures
        !name.contains('/'),
        !name.contains('\\'),
        !name.contains('\0'),
        forall|i: int| 0 <= i < name.len() ==> !is_space(name[i]),
        name != "."@,
        name != ".."@,
        !climbs(name),
        !is_absolute_path(name),
{
    accepted_names_are_valid(kind, name);
    assert forall|i: int| 0 <= i < name.len() implies name[i] != '/' && name[i] != '\\' && name[i]
        != '\0' && !is_space(name[i]) by {
        assert(name_char(name[i]));
    }
    reveal_strlit(".");
    reveal_strlit("..");
    assert("."@[0] == '.' && ".."@[0] == '.');
    crate::text::first_index_is(name, '/', name.len() as int);
    assert(split_on(name, '/') == seq![name]);
    assert(!seq![name].contains(".."@)) by {
        if seq![name].contains(".."@) {
            let k = choose|k: int| 0 <= k < 1 && seq![name][k] == ".."@;
            assert(seq![name][k] == name);
        }
    }
}

/// `c` where a resource name may hold it, a dash otherwise.
pub open spec fn catalog_char(c: char) -> char {
    if name_char(c) { c } else { '-' }
}

/// The catalog name of the image that an OCI reference leads to.
pub open spec fn catalog_name(reference: Seq<char>) -> Seq<char> {
    reference.map_values(|c: char| catalog_char(c))
}

/// Map an OCI/Docker reference to a deterministic catalog image name, so repeat
/// runs of the same reference reuse the cached import.
pub fn oci_ref_to_catalog_name(reference: &str) -> (r: String)
    ensures
        r@ == catalog_name(reference@),
{
    let v = to_chars(reference);
    let mut r = String::new();
    let mut i: usize = 0;
    while i < v.len()
        invariant
            i <= v@.len(),
            v@ == reference@,
            r@ == catalog_name(v@.take(i as int)),
        decreases v.len() - i,
    {
        let c = v[i];
        r.push(if is_name_char(c) { c } else { '-' });
        proof {
            assert(v@.take(i + 1) == v@.take(i as int).push(c));
            assert(catalog_name(v@.take(i + 1)) == catalog_name(v@.take(i as int)).push(
                catalog_char(c),
            ));
        }
        i += 1;
    }
    assert(v@.take(v@.len() as int) == reference@);
    r
}

/// A catalog name is its own catalog name, is as long as the reference, and holds
/// only characters that a resource name may hold.
pub proof fn catalog_names_are_canonical(reference: Seq<char>)
    ensures
        catalog_name(catalog_name(reference)) == catalog_name(reference),
        catalog_name(reference).len() == reference.len(),
        forall|i: int| 0 <= i < reference.len() ==> name_char(catalog_name(reference)[i]),
        valid_name(reference) ==> catalog_name(reference) == reference,
{
    assert forall|i: int| 0 <= i < reference.len() implies name_char(
        #[trigger] catalog_name(reference)[i],
    ) by {
        assert(name_char('-'));
    }
    assert(catalog_name(catalog_name(reference)) =~= catalog_name(reference));
    if valid_name(reference) {
        assert(catalog_name(reference) =~= reference);
    }
}

/// The argument has the shape of a path.
pub open spec fn path_shaped(arg: Seq<char>) -> bool {
    ||| occurs_at(arg, "/"@, 0)
    ||| occurs_at(arg, "./"@, 0)
    ||| occurs_at(arg, "../"@, 0)
}

/// Whether a `run`/`job` rootfs argument is path-shaped (so a typo'd path is
/// reported as a missing file, not mistaken for an image reference).
pub fn looks_like_path(arg: &str) -> (r: bool)
    ensures
        r == path_shaped(arg@),
{
    starts_with(arg, "/") || starts_with(arg, "./") || starts_with(arg, "../")
}

/// The name of a service's instance.
pub open spec fn instance_of(service: Seq<char>, ordinal: nat) -> Seq<char> {
    service + "-"@ + decimal(ordinal)
}

/// Build the canonical instance name for a service ordinal.
pub fn instance_name(service: &str, ordinal: u32) -> (r: String)
    ensures
        r@ == instance_of(service@, ordinal as nat),
{
    service.to_owned().concat("-").concat(decimal_string(ordinal as u64).as_str())
}

/// What is wrong with the name of the last of so many instances, if anything.
pub open spec fn last_instance_verdict(name: Seq<char>, desired: nat) -> Result<(), ErrorView> {
    if desired == 0 {
        Ok(())
    } else {
        name_verdict("service instance"@, instance_of(name, (desired - 1) as nat))
    }
}

/// No instances need no names. Otherwise a service's name will do exactly where every
/// instance gets a name that can be used, the last one among them.
pub proof fn names_will_do_for_all_instances(name: Seq<char>, desired: nat, ordinal: nat)
    ensures
        last_instance_verdict(name, 0) is Ok,
        last_instance_verdict(name, desired) is Ok && ordinal < desired ==> name_verdict(
            "service instance"@,
            instance_of(name, ordinal),
        ) is Ok,
        desired > 0 && name_verdict(
            "service instance"@,
            instance_of(name, (desired - 1) as nat),
        ) is Err ==> last_instance_verdict(name, desired) is Err,
{
    if last_instance_verdict(name, desired) is Ok && ordinal < desired {
        validated_services_have_valid_instances(name, desired, ordinal);
    }
}

/// Validate that the worst-case generated instance name, that of the last
/// ordinal, fits the resource-name rules. Without instances there is nothing to
/// validate.
pub fn validate_service_instance_names(name: &str, desired_instances: u32) -> (r: Result<
    (),
    CoreError,
>)
    ensures
        unit_view(r) == last_instance_verdict(name@, desired_instances as nat),
{
    if desired_instances > 0 {
        return validate_resource_name(
            "service instance",
            instance_name(name, desired_instances - 1).as_str(),
        );
    }
    Ok(())
}

/// Validating the last ordinal is enough: where its instance name is accepted, so
/// is that of every ordinal before it.
pub proof fn validated_services_have_valid_instances(name: Seq<char>, desired: nat, ordinal: nat)
    requires
        ordinal < desired,
        name_verdict("service instance"@, instance_of(name, (desired - 1) as nat)) is Ok,
    ensures
        name_verdict("service instance"@, instance_of(name, ordinal)) is Ok,
        valid_name(instance_of(name, ordinal)),
{
    let last = instance_of(name, (desired - 1) as nat);
    let this = instance_of(name, ordinal);
    accepted_names_are_valid("service instance"@, last);
    accepted_names_are_valid("service instance"@, this);
    decimal_length_grows(ordinal, (desired - 1) as nat);
    decimal_is_digits(ordinal);
    reveal_strlit("-");
    let head = name + "-"@;
    assert(this[0] == head[0] && last[0] == head[0]);
    assert forall|i: int| 0 <= i < this.len() implies name_char(this[i]) by {
        if i < head.len() {
            assert(this[i] == head[i] && last[i] == head[i]);
            assert(name_char(last[i]));
        } else {
            assert(this[i] == decimal(ordinal)[i - head.len()]);
            assert(is_digit(decimal(ordinal)[i - head.len()]));
        }
    }
}

/// No two instances share a name, whether they belong to one service or to two: what
/// stands behind the last dash is the ordinal, and what stands before it the service.
pub proof fn instance_names_are_distinct(name: Seq<char>, a: nat, other: Seq<char>, b: nat)
    requires
        name != other || a != b,
    ensures
        instance_of(name, a) != instance_of(other, b),
{
    reveal_strlit("-");
    let x = instance_of(name, a);
    let y = instance_of(other, b);
    if x == y {
        decimal_is_digits(a);
        decimal_is_digits(b);
        assert(x == name + "-"@ + decimal(a) && y == other + "-"@ + decimal(b));
        assert("-"@.len() == 1 && "-"@[0] == '-');
        assert(x.len() == name.len() + 1 + decimal(a).len());
        assert(y.len() == other.len() + 1 + decimal(b).len());
        assert(x[name.len() as int] == '-');
        assert(y[other.len() as int] == '-');
        if name.len() < other.len() {
            let i = other.len() - name.len() - 1;
            assert(x[other.len() as int] == decimal(a)[i]);
            assert(is_digit(decimal(a)[i]));
        }
        if other.len() < name.len() {
            let i = name.len() - other.len() - 1;
            assert(y[name.len() as int] == decimal(b)[i]);
            assert(is_digit(decimal(b)[i]));
        }
        assert(name =~= x.take(name.len() as int));
        assert(other =~= y.take(other.len() as int));
        assert(decimal(a) =~= x.skip((name.len() + 1) as int));
        assert(decimal(b) =~= y.skip((other.len() + 1) as int));
        decimal_is_injective(a, b);
    }
}

/// What [`validate_host_path`] says of `path`.
pub open spec fn host_path_verdict(kind: Seq<char>, path: Seq<char>, is_symlink: bool) -> Result<
    (),
    ErrorView,
> {
    if !is_absolute_path(path) {
        Err(ErrorView::InvalidArgument(kind + " path must be absolute, got "@ + path))
    } else if climbs(path) {
        Err(ErrorView::InvalidArgument(kind + " path must not contain '..' segments: "@ + path))
    } else if is_symlink {
        Err(ErrorView::InvalidArgument(kind + " path must not be a symlink: "@ + path))
    } else {
        Ok(())
    }
}

/// Validate a user-supplied host filesystem path before it is opened. Whether its
/// final component is a symlink, the caller has looked up.
pub fn validate_host_path(kind: &str, path: &str, is_symlink: bool) -> (r: Result<(), CoreError>)
    ensures
        unit_view(r) == host_path_verdict(kind@, path@, is_symlink),
{
    if !is_absolute(path) {
        return Err(
            CoreError::InvalidArgument(
                kind.to_owned().concat(" path must be absolute, got ").concat(path),
            ),
        );
    }
    if has_parent_segment(path) {
        return Err(
            CoreError::InvalidArgument(
                kind.to_owned().concat(" path must not contain '..' segments: ").concat(path),
            ),
        );
    }
    if is_symlink {
        return Err(
            CoreError::InvalidArgument(
                kind.to_owned().concat(" path must not be a symlink: ").concat(path),
            ),
        );
    }
    Ok(())
}

/// The readiness timeout of a boot mode, in seconds.
pub open spec fn ready_timeout(boot_mode: Seq<char>) -> u64 {
    if boot_mode == "uefi"@ || boot_mode == "efi"@ {
        UEFI_READY_TIMEOUT_SECS
    } else {
        DEFAULT_READY_TIMEOUT_SECS
    }
}

/// Boot-mode-aware default readiness timeout, in seconds. Unknown boot modes get
/// the direct-kernel default.
pub fn default_ready_timeout(boot_mode: &str) -> (r: u64)
    ensures
        r == ready_timeout(boot_mode@),
{
    if str_eq(boot_mode, "uefi") || str_eq(boot_mode, "efi") {
        UEFI_READY_TIMEOUT_SECS
    } else {
        DEFAULT_READY_TIMEOUT_SECS
    }
}

/// One of the space-separated words of `s` begins with `prefix`.
pub open spec fn some_word_begins(s: Seq<char>, prefix: Seq<char>) -> bool {
    exists|i: int| #[trigger] occurs_at(s, prefix, i) && (i == 0 || is_space(s[i - 1]))
}

/// The kernel command line of an image that boots into `boot_init`.
pub open spec fn with_boot_init(base: Seq<char>, boot_init: Option<Seq<char>>) -> Seq<char> {
    match boot_init {
        Some(path) => if some_word_begins(base, "init="@) {
            base
        } else {
            base + " init="@ + path + " husker.init=1"@
        },
        None => base,
    }
}

fn any_word_begins(s: &str, prefix: &str) -> (r: bool)
    ensures
        r == some_word_begins(s@, prefix@),
{
    let v = to_chars(s);
    let p = to_chars(prefix);
    let mut i: usize = 0;
    loop
        invariant
            i <= v@.len(),
            v@ == s@,
            p@ == prefix@,
            forall|k: int| 0 <= k < i ==> !(#[trigger] occurs_at(s@, prefix@, k) && (k == 0
                || is_space(s@[k - 1]))),
        decreases v.len() - i,
    {
        if (i == 0 || is_space_char(v[i - 1])) && crate::text::matches_at(&v, &p, i) {
            proof {
                assert(occurs_at(s@, prefix@, i as int));
            }
            return true;
        }
        if i == v.len() {
            return false;
        }
        i += 1;
    }
}

/// Append the agent-supervisor boot tokens to a direct-kernel cmdline when the
/// booting image declares a `boot_init`. An explicit `init=` already on the
/// cmdline wins and is left untouched.
pub fn apply_boot_init(base: &str, boot_init: Option<&str>) -> (r: String)
    ensures
        r@ == with_boot_init(base@, opt_str_view(boot_init)),
{
    match boot_init {
        Some(path) => {
            if any_word_begins(base, "init=") {
                base.to_owned()
            } else {
                base.to_owned().concat(" init=").concat(path).concat(" husker.init=1")
            }
        },
        None => base.to_owned(),
    }
}

/// The format of an image by the name of its file.
pub open spec fn image_format_of(path: Seq<char>) -> Seq<char> {
    match extension_of(path) {
        Some(ext) => lower_all(ext),
        None => "ext4"@,
    }
}

/// Infer an image's format from its file extension, `ext4` where it has none.
pub fn infer_image_format(path: &str) -> (r: String)
    ensures
        r@ == image_format_of(path@),
{
    match extension(path) {
        Some(ext) => to_lower(ext.as_str()),
        None => "ext4".to_owned(),
    }
}

/// The network mode that a request asks for.
pub open spec fn network_mode_of(n: Option<Seq<char>>) -> Result<Seq<char>, ErrorView> {
    match n {
        None => Ok("nat"@),
        Some(m) => if m == "nat"@ {
            Ok("nat"@)
        } else if m == "bridged"@ {
            Ok("bridged"@)
        } else {
            Err(
                ErrorView::InvalidArgument(
                    "unknown network mode '"@ + m + "' (accepted: nat, bridged)"@,
                ),
            )
        },
    }
}

/// A result over a string slice, with the texts as sequences of characters.
pub open spec fn str_result_view(r: Result<&'static str, CoreError>) -> Result<
    Seq<char>,
    ErrorView,
> {
    match r {
        Ok(s) => Ok(s@),
        Err(e) => Err(e@),
    }
}

/// Validate and normalize the network mode field: "nat" (also when unset) or
/// "bridged"; unknown values are rejected with the accepted values.
pub fn validate_network_mode(n: Option<&str>) -> (r: Result<&'static str, CoreError>)
    ensures
        str_result_view(r) == network_mode_of(opt_str_view(n)),
{
    match n {
        None => Ok("nat"),
        Some(m) => {
            if str_eq(m, "nat") {
                Ok("nat")
            } else if str_eq(m, "bridged") {
                Ok("bridged")
            } else {
                Err(
                    CoreError::InvalidArgument(
                        "unknown network mode '".to_owned().concat(m).concat(
                            "' (accepted: nat, bridged)",
                        ),
                    ),
                )
            }
        },
    }
}

/// The image kind that an import asks for.
pub open spec fn image_kind_of(kind: Option<Seq<char>>) -> Result<Seq<char>, ErrorView> {
    match kind {
        None => Ok("rootfs"@),
        Some(k) => if k == "rootfs"@ {
            Ok("rootfs"@)
        } else if k == "cloud-image"@ {
            Ok("cloud-image"@)
        } else {
            Err(
                ErrorView::InvalidArgument(
                    "unknown image kind '"@ + k + "' (expected 'rootfs' or 'cloud-image')"@,
                ),
            )
        },
    }
}

/// Validate and default an image-import kind ("rootfs" when unset).
pub fn validate_image_kind(kind: Option<&str>) -> (r: Result<String, CoreError>)
    ensures
        string_view(r) == image_kind_of(opt_str_view(kind)),
{
    match kind {
        None => Ok("rootfs".to_owned()),
        Some(k) => {
            if str_eq(k, "rootfs") {
                Ok("rootfs".to_owned())
            } else if str_eq(k, "cloud-image") {
                Ok("cloud-image".to_owned())
            } else {
                Err(
                    CoreError::InvalidArgument(
                        "unknown image kind '".to_owned().concat(k).concat(
                            "' (expected 'rootfs' or 'cloud-image')",
                        ),
                    ),
                )
            }
        },
    }
}

/// The serial tail shows kernel modules that do not fit the running kernel.
pub open spec fn shows_module_mismatch(tail: Seq<char>) -> bool {
    ||| occurs(tail, "disagrees about version of symbol"@)
    ||| occurs(tail, "module_layout"@)
    ||| occurs(tail, "Invalid module format"@)
}

/// The remediation for a kernel/module mismatch.
pub const MODULE_MISMATCH_HINT: &'static str = "the guest's baked kernel modules do not match the running kernel (a kernel refresh likely invalidated them); rebuild the rootfs against the current kernel";

/// If a serial-console tail shows a kernel/module ABI mismatch, a targeted
/// remediation hint.
pub fn kernel_module_mismatch_hint(tail: &str) -> (r: Option<&'static str>)
    ensures
        r is Some <==> shows_module_mismatch(tail@),
        r matches Some(hint) ==> hint@ == MODULE_MISMATCH_HINT@,
{
    if contains(tail, "disagrees about version of symbol") || contains(tail, "module_layout")
        || contains(tail, "Invalid module format") {
        Some(MODULE_MISMATCH_HINT)
    } else {
        None
    }
}

/// `reference` without the scheme that an image's source path carries, however
/// often it was put in front.
pub open spec fn without_oci_scheme(reference: Seq<char>) -> Seq<char>
    decreases reference.len(),
{
    if reference.len() >= 6 && occurs_at(reference, "oci://"@, 0) {
        without_oci_scheme(reference.skip(6))
    } else {
        reference
    }
}

/// The source path of an image that was imported from `reference`.
pub open spec fn oci_source(reference: Seq<char>) -> Seq<char> {
    "oci://"@ + without_oci_scheme(reference)
}

/// An OCI reference without its `oci://` scheme.
pub fn strip_oci_scheme(reference: &str) -> (r: String)
    ensures
        r@ == without_oci_scheme(reference@),
{
    let v = to_chars(reference);
    let scheme = to_chars("oci://");
    let mut from: usize = 0;
    proof {
        reveal_strlit("oci://");
        assert(v@.skip(0) == v@);
    }
    while v.len() - from >= 6 && crate::text::matches_at(&v, &scheme, from)
        invariant
            from <= v@.len(),
            scheme@ == "oci://"@,
            scheme@.len() == 6,
            without_oci_scheme(v@.skip(from as int)) == without_oci_scheme(reference@),
        decreases v.len() - from,
    {
        proof {
            let rest = v@.skip(from as int);
            assert(rest.subrange(0, 6) == v@.subrange(from as int, from + 6));
            assert(occurs_at(rest, "oci://"@, 0));
            assert(rest.skip(6) == v@.skip(from + 6));
        }
        from += 6;
    }
    proof {
        let rest = v@.skip(from as int);
        if rest.len() >= 6 {
            assert(rest.subrange(0, 6) == v@.subrange(from as int, from + 6));
        }
        assert(without_oci_scheme(rest) == rest);
        assert(v@.subrange(from as int, v@.len() as int) == rest);
    }
    crate::text::from_chars(&v, from, v.len())
}

/// The `source_path` recorded for an OCI-imported image, and the value that the
/// image list reports.
pub fn oci_source_path(reference: &str) -> (r: String)
    ensures
        r@ == oci_source(reference@),
{
    "oci://".to_owned().concat(strip_oci_scheme(reference).as_str())
}

proof fn stripped_references_have_no_scheme(reference: Seq<char>)
    ensures
        !occurs_at(without_oci_scheme(reference), "oci://"@, 0),
    decreases reference.len(),
{
    reveal_strlit("oci://");
    if reference.len() >= 6 && occurs_at(reference, "oci://"@, 0) {
        stripped_references_have_no_scheme(reference.skip(6));
    }
}

/// The reported source path carries exactly one scheme whatever form the caller
/// used, so importing what was reported reports the same again.
pub proof fn source_paths_carry_one_scheme(reference: Seq<char>)
    ensures
        occurs_at(oci_source(reference), "oci://"@, 0),
        !occurs_at(oci_source(reference).skip(6), "oci://"@, 0),
        oci_source(oci_source(reference)) == oci_source(reference),
{
    reveal_strlit("oci://");
    stripped_references_have_no_scheme(reference);
    let path = oci_source(reference);
    assert(path.subrange(0, 6) == "oci://"@);
    assert(path.skip(6) == without_oci_scheme(reference));
    assert(without_oci_scheme(path) == without_oci_scheme(path.skip(6)));
    assert(without_oci_scheme(path.skip(6)) == path.skip(6));
}

/// A name is accepted exactly where it has 1 to 64 characters, each of them a Latin letter,
/// a digit, a dash, an underscore or a dot, and does not begin with a dot; else it is an
/// invalid argument.
pub proof fn names_are_short_plain_words(kind: Seq<char>, name: Seq<char>)
    ensures
        name_verdict(kind, name) is Ok <==> {
            &&& 1 <= name.len() <= 64
            &&& name[0] != '.'
            &&& forall|i: int|
                0 <= i < name.len() ==> ({
                    let c = #[trigger] name[i];
                    'a' <= c <= 'z' || 'A' <= c <= 'Z' || '0' <= c <= '9' || c == '-' || c == '_'
                        || c == '.'
                })
        },
        name_verdict(kind, name) matches Err(e) ==> e is InvalidArgument && occurs_at(
            e->InvalidArgument_0,
            kind,
            0,
        ),
{
    accepted_names_are_valid(kind, name);
    if name_verdict(kind, name) is Err {
        let text = name_verdict(kind, name)->Err_0->InvalidArgument_0;
        assert(text.subrange(0, kind.len() as int) =~= kind);
    }
    if name_verdict(kind, name) is Ok {
        assert forall|i: int| 0 <= i < name.len() implies ({
            let c = #[trigger] name[i];
            'a' <= c <= 'z' || 'A' <= c <= 'Z' || '0' <= c <= '9' || c == '-' || c == '_' || c
                == '.'
        }) by {
            assert(name_char(name[i]));
        }
    }
}

/// A catalog name keeps what a name may hold, and has a dash for anything else.
pub proof fn catalog_names_keep_what_they_may(reference: Seq<char>, i: int)
    requires
        0 <= i < reference.len(),
    ensures
        ({
            let c = reference[i];
            let plain = 'a' <= c <= 'z' || 'A' <= c <= 'Z' || '0' <= c <= '9' || c == '-' || c == '_'
                || c == '.';
            &&& plain ==> catalog_name(reference)[i] == c
            &&& !plain ==> catalog_name(reference)[i] == '-'
        }),
{
}

/// An argument looks like a path where it begins at the root, here, or one level up.
pub proof fn paths_begin_at_the_root_or_with_dots(arg: Seq<char>)
    ensures
        path_shaped(arg) <==> {
            ||| arg.len() > 0 && arg[0] == '/'
            ||| arg.len() > 1 && arg[0] == '.' && arg[1] == '/'
            ||| arg.len() > 2 && arg[0] == '.' && arg[1] == '.' && arg[2] == '/'
        },
{
    reveal_strlit("/");
    reveal_strlit("./");
    reveal_strlit("../");
    if arg.len() > 0 && arg[0] == '/' {
        assert(arg.subrange(0, 1) =~= "/"@);
    }
    if arg.len() > 1 && arg[0] == '.' && arg[1] == '/' {
        assert(arg.subrange(0, 2) =~= "./"@);
    }
    if arg.len() > 2 && arg[0] == '.' && arg[1] == '.' && arg[2] == '/' {
        assert(arg.subrange(0, 3) =~= "../"@);
    }
    if occurs_at(arg, "/"@, 0) {
        assert(arg.subrange(0, 1)[0] == '/');
    }
    if occurs_at(arg, "./"@, 0) {
        assert(arg.subrange(0, 2)[0] == '.' && arg.subrange(0, 2)[1] == '/');
    }
    if occurs_at(arg, "../"@, 0) {
        let head = arg.subrange(0, 3);
        assert(head[0] == '.' && head[1] == '.' && head[2] == '/');
    }
}

/// A path on the host is used exactly where it begins at the root, never climbs and is no
/// symlink.
pub proof fn host_paths_are_absolute_and_plain(
    kind: Seq<char>,
    path: Seq<char>,
    is_symlink: bool,
)
    ensures
        host_path_verdict(kind, path, is_symlink) is Ok <==> path.len() > 0 && path[0] == '/'
            && !split_on(path, '/').contains(".."@) && !is_symlink,
        host_path_verdict(kind, path, is_symlink) matches Err(e) ==> e is InvalidArgument
            && has_suffix(e->InvalidArgument_0, path),
{
    if host_path_verdict(kind, path, is_symlink) is Err {
        let text = host_path_verdict(kind, path, is_symlink)->Err_0->InvalidArgument_0;
        assert(text.subrange(text.len() - path.len(), text.len() as int) =~= path);
    }
}

/// A guest that boots through firmware is given three minutes to answer, any other two.
pub proof fn firmware_takes_longer(boot_mode: Seq<char>)
    ensures
        boot_mode == "uefi"@ || boot_mode == "efi"@ ==> ready_timeout(boot_mode) == 3 * 60,
        boot_mode != "uefi"@ && boot_mode != "efi"@ ==> ready_timeout(boot_mode) == 2 * 60,
{
}

/// An image that names its init is started by it, under the agent's eye; one that names
/// none, or a command line that already has an init, is left as it is. Nothing is ever
/// taken from a command line.
pub proof fn boot_inits_are_added_once(base: Seq<char>, init: Seq<char>)
    ensures
        with_boot_init(base, None) == base,
        occurs_at(with_boot_init(base, Some(init)), base, 0),
        some_word_begins(base, "init="@) ==> with_boot_init(base, Some(init)) == base,
        !some_word_begins(base, "init="@) ==> has_suffix(
            with_boot_init(base, Some(init)),
            " init="@ + init + " husker.init=1"@,
        ),
        with_boot_init(with_boot_init(base, Some(init)), Some(init)) == with_boot_init(
            base,
            Some(init),
        ),
{
    reveal_strlit(" init=");
    reveal_strlit("init=");
    let line = with_boot_init(base, Some(init));
    let word = " init="@ + init + " husker.init=1"@;
    assert(line.subrange(0, base.len() as int) =~= base);
    if !some_word_begins(base, "init="@) {
        assert(line =~= base + word);
        assert(line.subrange(line.len() - word.len(), line.len() as int) =~= word);
        let i = base.len() as int + 1;
        assert(line[i - 1] == ' ');
        assert(line.subrange(i, i + 5) =~= "init="@);
        assert(occurs_at(line, "init="@, i));
        assert(is_space(line[i - 1]));
    }
}

/// An image's format is its extension in lower case, and ext4 where it has none.
pub proof fn formats_are_extensions_in_lower_case(path: Seq<char>)
    ensures
        extension_of(path) is None ==> image_format_of(path) == "ext4"@,
        extension_of(path) matches Some(ext) ==> image_format_of(path).len() == ext.len()
            && forall|i: int|
            0 <= i < ext.len() ==> ({
                let c = #[trigger] ext[i];
                let f = image_format_of(path)[i];
                &&& !('A' <= c <= 'Z') ==> f == c
                &&& 'A' <= c <= 'Z' ==> f as int == c as int + 32
            }),
{
}

/// A VM is behind NAT unless it asks for the LAN by name; any other mode is refused.
pub proof fn network_modes_are_nat_or_bridged(n: Option<Seq<char>>)
    ensures
        n is None ==> network_mode_of(n) == Ok::<Seq<char>, ErrorView>("nat"@),
        network_mode_of(n) matches Ok(mode) ==> (mode == "nat"@ || mode == "bridged"@) && (n is None
            || n == Some(mode)),
        network_mode_of(n) is Err <==> n is Some && n->0 != "nat"@ && n->0 != "bridged"@,
        network_mode_of(n) matches Err(e) ==> e is InvalidArgument && occurs(
            e->InvalidArgument_0,
            n->0,
        ),
{
    if n is Some {
        stands_between("unknown network mode '"@, n->0, "' (accepted: nat, bridged)"@);
    }
}

/// An image is a rootfs unless it is imported as a cloud image by name; any other kind is
/// refused.
pub proof fn image_kinds_are_rootfs_or_cloud(kind: Option<Seq<char>>)
    ensures
        kind is None ==> image_kind_of(kind) == Ok::<Seq<char>, ErrorView>("rootfs"@),
        image_kind_of(kind) matches Ok(k) ==> (k == "rootfs"@ || k == "cloud-image"@) && (kind
            is None || kind == Some(k)),
        image_kind_of(kind) is Err <==> kind is Some && kind->0 != "rootfs"@ && kind->0
            != "cloud-image"@,
        image_kind_of(kind) matches Err(e) ==> e is InvalidArgument,
{
}

/// A console shows a module mismatch wherever one of the three tell-tale texts stands in it,
/// and nowhere else.
pub proof fn mismatches_show_anywhere(before: Seq<char>, after: Seq<char>, tail: Seq<char>)
    ensures
        shows_module_mismatch(before + "disagrees about version of symbol"@ + after),
        shows_module_mismatch(before + "module_layout"@ + after),
        shows_module_mismatch(before + "Invalid module format"@ + after),
        shows_module_mismatch(tail) ==> occurs(tail, "disagrees about version of symbol"@) || occurs(
            tail,
            "module_layout"@,
        ) || occurs(tail, "Invalid module format"@),
{
    stands_between(before, "disagrees about version of symbol"@, after);
    stands_between(before, "module_layout"@, after);
    stands_between(before, "Invalid module format"@, after);
}

/// The source path of an image is its reference behind the scheme, with or without which it
/// was asked for.
pub proof fn source_paths_are_references(reference: Seq<char>)
    ensures
        !occurs_at(reference, "oci://"@, 0) ==> oci_source(reference) == "oci://"@ + reference,
        oci_source("oci://"@ + reference) == oci_source(reference),
{
    reveal_strlit("oci://");
    let with = "oci://"@ + reference;
    assert(with.subrange(0, 6) =~= "oci://"@);
    assert(with.skip(6) =~= reference);
}

/// Stripping takes the scheme away however often it stands in front, and nothing else: a
/// reference without it is left alone.
pub proof fn only_the_scheme_is_stripped(reference: Seq<char>)
    ensures
        without_oci_scheme("oci://"@ + reference) == without_oci_scheme(reference),
        !occurs_at(reference, "oci://"@, 0) ==> without_oci_scheme(reference) == reference,
        !occurs_at(without_oci_scheme(reference), "oci://"@, 0),
        has_suffix(reference, without_oci_scheme(reference)),
    decreases reference.len(),
{
    reveal_strlit("oci://");
    let r = "oci://"@ + reference;
    assert(r.subrange(0, 6) =~= "oci://"@);
    assert(r.skip(6) =~= reference);
    if reference.len() >= 6 && occurs_at(reference, "oci://"@, 0) {
        let rest = reference.skip(6);
        only_the_scheme_is_stripped(rest);
        let bare = without_oci_scheme(rest);
        assert(reference.subrange(reference.len() - bare.len(), reference.len() as int)
            =~= rest.subrange(rest.len() - bare.len(), rest.len() as int));
    } else {
        assert(reference.subrange(0, reference.len() as int) =~= reference);
    }
}

} // verus!
