//! The files that belong to a VM, and what its logs tell.

use vstd::prelude::*;
use vstd::string::*;

use crate::error::CoreError;
#[allow(unused_imports)]
use crate::error::{unit_view, ErrorView};
use crate::ids::id_text;
#[allow(unused_imports)]
use crate::ids::hyphenated;
use crate::names::kernel_module_mismatch_hint;
#[allow(unused_imports)]
use crate::names::{shows_module_mismatch, MODULE_MISMATCH_HINT};
use crate::path::join;
#[allow(unused_imports)]
use crate::path::joined;
use crate::text::{decimal_string, ends_with, from_chars, is_space_char, split, to_chars};
#[allow(unused_imports)]
use crate::text::{
    decimal, first_index, has_suffix, is_space, occurs, occurs_at, opt_view, split_on, stands_between,
    trimmed_end, views,
};

verus! {

/// Serial log files exceeding this size are eligible for rotation.
pub const LOG_ROTATE_THRESHOLD: u64 = 10_485_760;

/// How many bytes to keep when rotating a serial log.
pub const LOG_ROTATE_KEEP: u64 = 5_242_880;

/// Lines of guest serial console appended to a boot/agent-readiness failure.
pub const BOOT_FAILURE_SERIAL_TAIL_LINES: usize = 20;

/// The file of a VM with this ending, in the runtime directory.
pub open spec fn runtime_file(runtime_dir: Seq<char>, id: u128, ending: Seq<char>) -> Seq<char> {
    joined(runtime_dir, hyphenated(id) + ending)
}

fn runtime_path(runtime_dir: &str, id: u128, ending: &str) -> (r: String)
    ensures
        r@ == runtime_file(runtime_dir@, id, ending@),
{
    join(runtime_dir, id_text(id).concat(ending).as_str())
}

/// Path to a VM's serial console log file.
pub fn serial_log_path(runtime_dir: &str, id: u128) -> (r: String)
    ensures
        r@ == runtime_file(runtime_dir@, id, ".serial.log"@),
{
    runtime_path(runtime_dir, id, ".serial.log")
}

/// Path to the captured userdata stdout/stderr log for a VM.
pub fn userdata_log_path(runtime_dir: &str, id: u128) -> (r: String)
    ensures
        r@ == runtime_file(runtime_dir@, id, ".userdata.log"@),
{
    runtime_path(runtime_dir, id, ".userdata.log")
}

/// Path to a VM's backend process ("boot") log, distinct from the guest serial
/// console.
pub fn boot_log_path(runtime_dir: &str, id: u128) -> (r: String)
    ensures
        r@ == runtime_file(runtime_dir@, id, ".boot.log"@),
{
    runtime_path(runtime_dir, id, ".boot.log")
}

/// The directory that holds a suspended VM's captured state.
pub open spec fn slot_dir(data_dir: Seq<char>, id: u128) -> Seq<char> {
    joined(joined(data_dir, "suspend"@), hyphenated(id))
}

/// Durable per-VM suspend slot: `<data_dir>/suspend/<vm_id>`.
pub fn suspend_slot_dir(data_dir: &str, id: u128) -> (r: String)
    ensures
        r@ == slot_dir(data_dir@, id),
{
    join(join(data_dir, "suspend").as_str(), id_text(id).as_str())
}

/// A file of the runtime directory is a serial log that has grown enough to be rotated.
pub open spec fn rotates(file_name: Seq<char>, len: nat) -> bool {
    has_suffix(file_name, ".serial.log"@) && len > LOG_ROTATE_THRESHOLD
}

/// A VM's serial log is rotated once it has more than ten mebibytes, whatever the VM, and
/// half of that is kept; its other logs never are.
pub proof fn serial_logs_are_rotated(id: u128, len: nat)
    ensures
        rotates(hyphenated(id) + ".serial.log"@, len) <==> len > 10 * 1024 * 1024,
        !rotates(hyphenated(id) + ".boot.log"@, len),
        !rotates(hyphenated(id) + ".userdata.log"@, len),
        2 * LOG_ROTATE_KEEP == 10 * 1024 * 1024,
        rotates(hyphenated(id) + ".serial.log"@, len) ==> kept_from(len, LOG_ROTATE_KEEP as nat)
            is Some,
        !rotates(hyphenated(id) + ".serial.log"@, LOG_ROTATE_KEEP as nat),
{
    reveal_strlit(".serial.log");
    reveal_strlit(".boot.log");
    reveal_strlit(".userdata.log");
    let a = hyphenated(id) + ".serial.log"@;
    assert(a.subrange(a.len() - 11, a.len() as int) =~= ".serial.log"@);
    let b = hyphenated(id) + ".boot.log"@;
    if has_suffix(b, ".serial.log"@) {
        let end = b.subrange(b.len() - 11, b.len() as int);
        assert(end[6] == 'l');
        assert(b[b.len() - 5] == ".boot.log"@[4]);
    }
    let c = hyphenated(id) + ".userdata.log"@;
    if has_suffix(c, ".serial.log"@) {
        let end = c.subrange(c.len() - 11, c.len() as int);
        assert(end[6] == 'l');
        assert(c[c.len() - 5] == ".userdata.log"@[8]);
    }
}

/// Whether a file of the runtime directory is a serial log that has grown enough
/// to be rotated.
pub fn needs_rotation(file_name: &str, len: u64) -> (r: bool)
    ensures
        r == rotates(file_name@, len as nat),
{
    ends_with(file_name, ".serial.log") && len > LOG_ROTATE_THRESHOLD
}

/// The position from which a log of `len` bytes is kept when it is rotated, unless
/// it is short enough to stay as it is.
pub open spec fn kept_from(len: nat, keep: nat) -> Option<nat> {
    if len <= keep { None } else { Some((len - keep) as nat) }
}

/// The position from which a log is kept, unless it is short enough.
pub fn rotation_start(len: u64, keep_bytes: u64) -> (r: Option<u64>)
    ensures
        match r {
            Some(p) => kept_from(len as nat, keep_bytes as nat) == Some(p as nat),
            None => kept_from(len as nat, keep_bytes as nat) is None,
        },
{
    if len <= keep_bytes {
        None
    } else {
        Some(len - keep_bytes)
    }
}

/// What is left of a rotated log is exactly as long as asked for, so rotating it
/// again changes nothing.
pub proof fn rotation_keeps_the_tail(len: nat, keep: nat)
    ensures
        kept_from(len, keep) matches Some(p) ==> len - p == keep,
        kept_from(keep, keep) is None,
{
}

/// A line without the carriage return that ended it together with a line feed.
pub open spec fn without_cr(line: Seq<char>) -> Seq<char> {
    if line.len() > 0 && line.last() == '\r' { line.drop_last() } else { line }
}

/// The lines of a text that does not end in a line feed.
pub open spec fn lines_of(s: Seq<char>) -> Seq<Seq<char>> {
    let pieces = split_on(s, '\n');
    Seq::new(
        pieces.len(),
        |i: int| if i + 1 < pieces.len() { without_cr(pieces[i]) } else { pieces[i] },
    )
}

/// The lines, with line feeds between them.
pub open spec fn joined_lines(lines: Seq<Seq<char>>) -> Seq<char>
    decreases lines.len(),
{
    if lines.len() == 0 {
        Seq::empty()
    } else if lines.len() == 1 {
        lines[0]
    } else {
        joined_lines(lines.drop_last()) + "\n"@ + lines.last()
    }
}

/// The last `n` of the lines.
pub open spec fn last_lines(lines: Seq<Seq<char>>, n: nat) -> Seq<Seq<char>> {
    if lines.len() <= n { lines } else { lines.skip(lines.len() - n) }
}

/// The end of a console log: its last lines, unless it has no content.
pub open spec fn log_tail(content: Seq<char>, max_lines: nat) -> Option<Seq<char>> {
    let text = trimmed_end(content);
    if text.len() == 0 {
        None
    } else {
        Some(joined_lines(last_lines(lines_of(text), max_lines)))
    }
}

/// A line without the carriage return that ended it together with a line feed.
pub fn strip_cr(s: &String) -> (r: String)
    ensures
        r@ == without_cr(s@),
{
    let v = to_chars(s.as_str());
    if v.len() > 0 && v[v.len() - 1] == '\r' {
        proof {
            assert(v@.subrange(0, v@.len() - 1) == s@.drop_last());
        }
        from_chars(&v, 0, v.len() - 1)
    } else {
        s.clone()
    }
}

/// Return the last `max_lines` lines of a log, or `None` when it has no content.
/// Used to attach the guest serial console tail to boot-failure errors.
pub fn tail_last_lines(content: &str, max_lines: usize) -> (r: Option<String>)
    ensures
        opt_view(r) == log_tail(content@, max_lines as nat),
{
    let v = to_chars(content);
    let mut n: usize = v.len();
    proof {
        assert(v@.take(n as int) == content@);
    }
    while n > 0 && is_space_char(v[n - 1])
        invariant
            n <= v@.len(),
            trimmed_end(v@.take(n as int)) == trimmed_end(content@),
        decreases n,
    {
        proof {
            assert(v@.take(n as int).last() == v@[n - 1]);
            assert(v@.take(n as int).drop_last() == v@.take(n - 1));
        }
        n -= 1;
    }
    proof {
        if n > 0 {
            assert(v@.take(n as int).last() == v@[n - 1]);
        }
        assert(trimmed_end(v@.take(n as int)) == v@.take(n as int));
        assert(v@.subrange(0, n as int) == v@.take(n as int));
    }
    if n == 0 {
        return None;
    }
    let text = from_chars(&v, 0, n);
    let pieces = split(text.as_str(), '\n');
    let ghost lines = lines_of(text@);
    let total = pieces.len();
    let start: usize = if total <= max_lines { 0 } else { total - max_lines };
    let mut r = String::new();
    let mut i: usize = start;
    proof {
        assert(lines.len() == total);
        assert(last_lines(lines, max_lines as nat) =~= lines.skip(start as int));
        assert(lines.skip(start as int).take(0) =~= Seq::empty());
    }
    while i < total
        invariant
            start <= i <= total == pieces@.len(),
            views(pieces@) == split_on(text@, '\n'),
            lines == lines_of(text@),
            lines.len() == total,
            r@ == joined_lines(lines.skip(start as int).take(i - start)),
        decreases total - i,
    {
        let line = if i + 1 < total { strip_cr(&pieces[i]) } else { pieces[i].clone() };
        if i > start {
            r.append("\n");
        }
        r.append(line.as_str());
        proof {
            assert(views(pieces@)[i as int] == pieces@[i as int]@);
            let kept = lines.skip(start as int);
            let head = kept.take(i - start + 1);
            assert(head.last() == lines[i as int]);
            assert(head.last() == line@);
            assert(head.drop_last() == kept.take(i - start));
            if i == start {
                assert(head[0] == line@);
                assert(Seq::<char>::empty() + line@ =~= line@);
                assert(kept.take(0) =~= Seq::empty());
            }
        }
        i += 1;
    }
    proof {
        let kept = lines.skip(start as int);
        assert(kept.take(total - start) =~= kept);
    }
    Some(r)
}

/// What a readiness failure says about the guest's console.
pub open spec fn failure_detail(name: Seq<char>, tail: Option<Seq<char>>) -> Seq<char> {
    match tail {
        Some(t) => "\n--- guest serial console (last "@ + decimal(20) + " lines) ---\n"@ + t
            + "\nhint: run `husker logs --source serial "@ + name
            + "` for the full guest console"@ + (if shows_module_mismatch(t) {
            "\nhint: "@ + MODULE_MISMATCH_HINT@
        } else {
            ""@
        }),
        None => "\nhint: the guest serial console has no output yet; run `husker logs --source serial "@
            + name + "` to inspect it"@,
    }
}

/// Diagnostic suffix for a boot/agent-readiness failure: the tail of the guest
/// serial console plus a pointer to the full log, so a failed boot is diagnosable
/// from the error alone.
pub fn boot_failure_detail(name: &str, tail: &Option<String>) -> (r: String)
    ensures
        r@ == failure_detail(name@, opt_view(*tail)),
{
    match tail {
        Some(t) => {
            let lines = decimal_string(BOOT_FAILURE_SERIAL_TAIL_LINES as u64);
            let hint = match kernel_module_mismatch_hint(t.as_str()) {
                Some(h) => "\nhint: ".to_owned().concat(h),
                None => "".to_owned(),
            };
            "\n--- guest serial console (last ".to_owned().concat(lines.as_str()).concat(
                " lines) ---\n",
            ).concat(t.as_str()).concat("\nhint: run `husker logs --source serial ").concat(
                name,
            ).concat("` for the full guest console").concat(hint.as_str())
        },
        None => "\nhint: the guest serial console has no output yet; run `husker logs --source serial ".to_owned().concat(
            name,
        ).concat("` to inspect it"),
    }
}

/// What is kept of a userdata script's output: what it wrote to its standard
/// output, then, on a line of its own, what it wrote to its standard error.
pub open spec fn userdata_log_of(stdout: Seq<char>, stderr: Seq<char>) -> Seq<char> {
    if stderr.len() == 0 {
        stdout
    } else if stdout.len() == 0 || stdout.last() == '\n' {
        stdout + "[stderr]\n"@ + stderr
    } else {
        stdout + "\n"@ + "[stderr]\n"@ + stderr
    }
}

/// Compose the log of a userdata script.
pub fn userdata_log(stdout: &str, stderr: &str) -> (r: String)
    ensures
        r@ == userdata_log_of(stdout@, stderr@),
{
    let mut log = stdout.to_owned();
    if !stderr.is_empty() {
        let v = to_chars(stdout);
        if v.len() > 0 && v[v.len() - 1] != '\n' {
            log.append("\n");
        }
        log.append("[stderr]\n");
        log.append(stderr);
    }
    log
}

/// The resolver configuration that names these servers.
pub open spec fn resolv_conf_of(servers: Seq<Seq<char>>) -> Seq<char>
    decreases servers.len(),
{
    if servers.len() == 0 {
        Seq::empty()
    } else {
        resolv_conf_of(servers.drop_last()) + ("nameserver "@ + servers.last() + "\n"@)
    }
}

/// The resolver configuration that is written into a guest's rootfs: one line per
/// server, in order.
pub fn resolv_conf(servers: &Vec<String>) -> (r: String)
    ensures
        r@ == resolv_conf_of(views(servers@)),
{
    let mut r = String::new();
    let mut i: usize = 0;
    proof {
        assert(views(servers@).take(0) =~= Seq::empty());
    }
    while i < servers.len()
        invariant
            i <= servers@.len(),
            r@ == resolv_conf_of(views(servers@).take(i as int)),
        decreases servers.len() - i,
    {
        let line = "nameserver ".to_owned().concat(servers[i].as_str()).concat("\n");
        r.append(line.as_str());
        proof {
            let head = views(servers@).take(i + 1);
            assert(head.last() == servers@[i as int]@);
            assert(head.drop_last() == views(servers@).take(i as int));
        }
        i += 1;
    }
    proof {
        assert(views(servers@).take(servers@.len() as int) == views(servers@));
    }
    r
}

/// What unmounting a rootfs gave.
#[derive(Debug)]
pub enum Unmounted {
    Clean,
    /// The command reported a failure.
    Failed,
    /// The command could not be run.
    Unable(String),
}

/// What writing into a mounted rootfs came to.
pub open spec fn write_verdict(write: Result<(), String>, unmounted: Unmounted) -> Result<
    (),
    ErrorView,
> {
    match write {
        Err(e) => Err(ErrorView::Storage(e@)),
        Ok(_) => match unmounted {
            Unmounted::Clean => Ok(()),
            Unmounted::Failed => Err(ErrorView::Storage("umount failed"@)),
            Unmounted::Unable(e) => Err(ErrorView::Storage(e@)),
        },
    }
}

/// A rootfs counts as written exactly where it was, and was unmounted again; else what
/// failed first is told.
pub proof fn rootfs_are_written_and_unmounted(write: Result<(), String>, unmounted: Unmounted)
    ensures
        write_verdict(write, unmounted) is Ok <==> write is Ok && unmounted is Clean,
        write matches Err(e) ==> write_verdict(write, unmounted) == Err::<(), ErrorView>(
            ErrorView::Storage(e@),
        ),
        write is Ok ==> (unmounted matches Unmounted::Unable(e) ==> write_verdict(write, unmounted)
            == Err::<(), ErrorView>(ErrorView::Storage(e@))),
        write_verdict(write, unmounted) matches Err(e) ==> e is Storage,
{
}

/// What writing the resolver configuration into a mounted rootfs came to. The rootfs is
/// unmounted in any case; a failed write is reported before a failed unmount.
pub fn resolv_conf_written(write: Result<(), String>, unmounted: Unmounted) -> (r: Result<
    (),
    CoreError,
>)
    ensures
        unit_view(r) == write_verdict(write, unmounted),
{
    match write {
        Err(e) => Err(CoreError::Storage(e)),
        Ok(_) => match unmounted {
            Unmounted::Clean => Ok(()),
            Unmounted::Failed => Err(CoreError::Storage("umount failed".to_owned())),
            Unmounted::Unable(e) => Err(CoreError::Storage(e)),
        },
    }
}

proof fn lines_join_from_the_front(first: Seq<char>, rest: Seq<Seq<char>>)
    requires
        rest.len() > 0,
    ensures
        joined_lines(seq![first] + rest) == first + "\n"@ + joined_lines(rest),
    decreases rest.len(),
{
    let all = seq![first] + rest;
    assert(all.last() == rest.last());
    if rest.len() == 1 {
        assert(all.drop_last() =~= seq![first]);
        assert(joined_lines(seq![first]) == first);
        assert(rest[0] == rest.last());
    } else {
        let head = rest.drop_last();
        assert(all.drop_last() =~= seq![first] + head);
        lines_join_from_the_front(first, head);
        assert(joined_lines(all) =~= first + "\n"@ + joined_lines(rest));
    }
}

proof fn joining_undoes_splitting(s: Seq<char>)
    ensures
        joined_lines(split_on(s, '\n')) == s,
        split_on(s, '\n').len() > 0,
    decreases s.len(),
{
    reveal_strlit("\n");
    let i = first_index(s, '\n');
    crate::text::first_index_bounds(s, '\n');
    if i < s.len() {
        let rest = s.skip(i + 1);
        joining_undoes_splitting(rest);
        lines_join_from_the_front(s.take(i), split_on(rest, '\n'));
        assert(s =~= s.take(i) + "\n"@ + rest);
    } else {
        assert(split_on(s, '\n') =~= seq![s]);
    }
}

proof fn lines_join_in_two_parts(a: Seq<Seq<char>>, b: Seq<Seq<char>>)
    requires
        b.len() > 0,
        a.len() > 0,
    ensures
        joined_lines(a + b) == joined_lines(a) + "\n"@ + joined_lines(b),
    decreases b.len(),
{
    let all = a + b;
    assert(all.last() == b.last());
    if b.len() == 1 {
        assert(all.drop_last() =~= a);
        assert(b[0] == b.last());
    } else {
        assert(all.drop_last() =~= a + b.drop_last());
        lines_join_in_two_parts(a, b.drop_last());
        assert(joined_lines(all) =~= joined_lines(a) + "\n"@ + joined_lines(b));
    }
}

proof fn plain_lines_are_pieces(s: Seq<char>)
    requires
        !s.contains('\r'),
    ensures
        lines_of(s) == split_on(s, '\n'),
{
    let pieces = split_on(s, '\n');
    assert forall|i: int| 0 <= i < pieces.len() implies lines_of(s)[i] == pieces[i] by {
        pieces_come_from_the_text(s, i);
        if pieces[i].len() > 0 {
            assert(pieces[i].contains(pieces[i].last()));
        }
    }
    assert(lines_of(s) =~= pieces);
}

proof fn pieces_come_from_the_text(s: Seq<char>, i: int)
    requires
        !s.contains('\r'),
        0 <= i < split_on(s, '\n').len(),
    ensures
        !split_on(s, '\n')[i].contains('\r'),
    decreases s.len(),
{
    let k = first_index(s, '\n');
    crate::text::first_index_bounds(s, '\n');
    if k < s.len() {
        let rest = s.skip(k + 1);
        assert forall|j: int| 0 <= j < rest.len() implies rest[j] != '\r' by {
            assert(rest[j] == s[j + k + 1]);
            assert(s.contains(s[j + k + 1]));
        }
        if i == 0 {
            let piece = s.take(k);
            assert forall|j: int| 0 <= j < piece.len() implies piece[j] != '\r' by {
                assert(s.contains(s[j]));
            }
        } else {
            assert(split_on(s, '\n')[i] == split_on(rest, '\n')[i - 1]);
            pieces_come_from_the_text(rest, i - 1);
        }
    }
}

/// A log's tail is its end, without the white space there. It is there exactly where the log
/// holds anything else. Where the log has no more lines than asked for it is all of it, and
/// else the last of them, as many as asked for.
pub proof fn tails_are_the_last_lines(content: Seq<char>, max_lines: nat)
    requires
        max_lines > 0,
        !content.contains('\r'),
    ensures
        log_tail(content, max_lines) is None <==> trimmed_end(content).len() == 0,
        log_tail(content, max_lines) matches Some(tail) ==> has_suffix(trimmed_end(content), tail),
        trimmed_end(content).len() > 0 && split_on(trimmed_end(content), '\n').len() <= max_lines
            ==> log_tail(content, max_lines) == Some(trimmed_end(content)),
        trimmed_end(content).len() > 0 && split_on(trimmed_end(content), '\n').len() > max_lines
            ==> last_lines(lines_of(trimmed_end(content)), max_lines).len() == max_lines,
{
    let text = trimmed_end(content);
    trimming_takes_from_the_end(content);
    if text.len() > 0 {
        assert forall|j: int| 0 <= j < text.len() implies text[j] != '\r' by {
            assert(text[j] == content[j]);
            assert(content.contains(content[j]));
        }
        plain_lines_are_pieces(text);
        joining_undoes_splitting(text);
        let lines = split_on(text, '\n');
        let tail = joined_lines(last_lines(lines, max_lines));
        if lines.len() > max_lines {
            let k = lines.len() - max_lines;
            assert(lines =~= lines.take(k) + lines.skip(k));
            lines_join_in_two_parts(lines.take(k), lines.skip(k));
        }
        assert(text.subrange(text.len() - tail.len(), text.len() as int) =~= tail);
    }
}

proof fn trimming_takes_from_the_end(s: Seq<char>)
    ensures
        trimmed_end(s).len() <= s.len(),
        trimmed_end(s) == s.take(trimmed_end(s).len() as int),
        trimmed_end(s).len() > 0 ==> !is_space(trimmed_end(s).last()),
        forall|i: int| trimmed_end(s).len() <= i < s.len() ==> is_space(#[trigger] s[i]),
    decreases s.len(),
{
    if s.len() > 0 && is_space(s.last()) {
        let rest = s.drop_last();
        trimming_takes_from_the_end(rest);
        assert(trimmed_end(s) =~= s.take(trimmed_end(s).len() as int));
        assert forall|i: int| trimmed_end(s).len() <= i < s.len() implies is_space(
            #[trigger] s[i],
        ) by {
            if i < rest.len() {
                assert(rest[i] == s[i]);
            }
        }
    } else {
        assert(s =~= s.take(s.len() as int));
    }
}

/// A boot that failed is told with the end of the console, where there is one, with the
/// command that shows all of it, and with the remedy for a module mismatch exactly where
/// the console shows one.
pub proof fn failed_boots_show_the_console(name: Seq<char>, tail: Option<Seq<char>>)
    ensures
        occurs(failure_detail(name, tail), "husker logs --source serial "@ + name + "`"@),
        tail matches Some(t) ==> occurs(failure_detail(name, tail), t),
        tail matches Some(t) ==> shows_module_mismatch(t) ==> has_suffix(
            failure_detail(name, tail),
            MODULE_MISMATCH_HINT@,
        ),
        tail matches Some(t) ==> !shows_module_mismatch(t) ==> has_suffix(
            failure_detail(name, tail),
            "` for the full guest console"@,
        ),
        tail is None ==> has_suffix(failure_detail(name, tail), "` to inspect it"@),
{
    reveal_strlit("\nhint: run `husker logs --source serial ");
    reveal_strlit(
        "\nhint: the guest serial console has no output yet; run `husker logs --source serial ",
    );
    reveal_strlit("husker logs --source serial ");
    reveal_strlit("` for the full guest console");
    reveal_strlit("` to inspect it");
    reveal_strlit("`");
    reveal_strlit("");
    let all = failure_detail(name, tail);
    let word = "husker logs --source serial "@ + name + "`"@;
    match tail {
        Some(t) => {
            let a = "\n--- guest serial console (last "@ + decimal(20) + " lines) ---\n"@;
            let b = "\nhint: run `husker logs --source serial "@ + name
                + "` for the full guest console"@;
            let c = if shows_module_mismatch(t) {
                "\nhint: "@ + MODULE_MISMATCH_HINT@
            } else {
                ""@
            };
            assert(all =~= a + t + (b + c));
            stands_between(a, t, b + c);
            let i = (a + t).len() as int + 12;
            assert(all.subrange(i, i + word.len()) =~= word) by {
                let head = "\nhint: run `husker logs --source serial "@;
                let short = "husker logs --source serial "@;
                assert(head.len() == short.len() + 12);
                assert(head.skip(12) =~= short);
                assert forall|k: int| 0 <= k < short.len() implies all[i + k] == short[k] by {
                    assert(all[i + k] == head[12 + k]);
                    assert(head.skip(12)[k] == head[12 + k]);
                }
                assert forall|k: int| 0 <= k < name.len() implies all[i + short.len() + k]
                    == name[k] by {}
                assert(all[i + short.len() + name.len()] == "` for the full guest console"@[0]);
            }
            assert(occurs_at(all, word, i));
            let end = if shows_module_mismatch(t) {
                MODULE_MISMATCH_HINT@
            } else {
                "` for the full guest console"@
            };
            assert(all.subrange(all.len() - end.len(), all.len() as int) =~= end);
        },
        None => {
            let head = "\nhint: the guest serial console has no output yet; run `husker logs --source serial "@;
            let short = "husker logs --source serial "@;
            let cut = head.len() - short.len();
            assert(head.skip(cut) =~= short);
            assert(all.subrange(cut, cut + word.len()) =~= word) by {
                assert forall|k: int| 0 <= k < short.len() implies all[cut + k] == short[k] by {
                    assert(head.skip(cut)[k] == head[cut + k]);
                }
                assert(all[cut + short.len() + name.len()] == "` to inspect it"@[0]);
            }
            assert(occurs_at(all, word, cut));
            let end = "` to inspect it"@;
            assert(all.subrange(all.len() - end.len(), all.len() as int) =~= end);
        },
    }
}

/// A script's log begins with what it wrote to its standard output. What it wrote to its
/// standard error stands at the end, marked, on a line of its own, and only where it wrote
/// any.
pub proof fn scripts_logs_keep_both_outputs(stdout: Seq<char>, stderr: Seq<char>)
    ensures
        occurs_at(userdata_log_of(stdout, stderr), stdout, 0),
        has_suffix(userdata_log_of(stdout, stderr), stderr),
        stderr.len() == 0 ==> userdata_log_of(stdout, stderr) == stdout,
        stderr.len() > 0 ==> has_suffix(userdata_log_of(stdout, stderr), "[stderr]\n"@ + stderr),
        stderr.len() > 0 && stdout.len() > 0 && stdout.last() != '\n' ==> userdata_log_of(
            stdout,
            stderr,
        ) == stdout + "\n[stderr]\n"@ + stderr,
        stderr.len() > 0 && (stdout.len() == 0 || stdout.last() == '\n') ==> userdata_log_of(
            stdout,
            stderr,
        ) == stdout + "[stderr]\n"@ + stderr,
{
    reveal_strlit("\n");
    reveal_strlit("[stderr]\n");
    reveal_strlit("\n[stderr]\n");
    let all = userdata_log_of(stdout, stderr);
    assert("\n"@ + "[stderr]\n"@ =~= "\n[stderr]\n"@);
    assert(all.subrange(0, stdout.len() as int) =~= stdout);
    assert(all.subrange(all.len() - stderr.len(), all.len() as int) =~= stderr);
    let marked = "[stderr]\n"@ + stderr;
    if stderr.len() > 0 {
        assert(all.subrange(all.len() - marked.len(), all.len() as int) =~= marked);
        if stdout.len() > 0 && stdout.last() != '\n' {
            assert(all =~= stdout + "\n[stderr]\n"@ + stderr);
        }
    }
}

/// A guest is told its resolvers one by one, in order, each on a line of its own.
pub proof fn resolvers_are_told_one_by_one(servers: Seq<Seq<char>>, server: Seq<char>)
    ensures
        resolv_conf_of(Seq::empty()) == Seq::<char>::empty(),
        resolv_conf_of(servers.push(server)) == resolv_conf_of(servers) + "nameserver "@ + server
            + "\n"@,
{
    assert(servers.push(server).drop_last() =~= servers);
    assert(resolv_conf_of(servers.push(server)) =~= resolv_conf_of(servers) + "nameserver "@ + server
        + "\n"@);
}

/// A carriage return ahead of a line feed belongs to the line's end, and one at most does.
pub proof fn line_ends_are_not_told(line: Seq<char>)
    ensures
        without_cr(line.push('\r')) == line,
        line.len() == 0 || line.last() != '\r' ==> without_cr(line) == line,
{
    assert(line.push('\r').drop_last() =~= line);
}

/// A text without a line feed is one line, as it stands. What stands ahead of the first line
/// feed is the first line, without the carriage return that belongs to its end, and the rest
/// is told as it would be alone.
pub proof fn lines_end_at_line_feeds(line: Seq<char>, rest: Seq<char>)
    requires
        !line.contains('\n'),
    ensures
        lines_of(line) == seq![line],
        lines_of(line + seq!['\n'] + rest) == seq![without_cr(line)] + lines_of(rest),
{
    crate::text::pieces_stand_between_separators(line, rest, '\n');
    assert(lines_of(line) =~= seq![line]);
    let all = line + seq!['\n'] + rest;
    let pieces = split_on(rest, '\n');
    assert(split_on(all, '\n') == seq![line] + pieces);
    assert(pieces.len() > 0);
    assert(lines_of(all) =~= seq![without_cr(line)] + lines_of(rest));
}

} // verus!
