//! The mount table: what its lines say, and the scan that decides whether a
//! directory is mounted through sshfs.

use crate::text::{chars_of, fields_of, lines_of, same_text, split_fields, split_lines};
use vstd::prelude::*;

verus! {

/// Where the system lists the active mounts.
pub const MTAB_PATH: &'static str = "/etc/mtab";

/// The filesystem type under which an sshfs mount is listed.
pub const FUSE_SSHFS: &'static str = "fuse.sshfs";

/// Whether a directory is currently mounted through sshfs.
#[derive(Clone, Copy, Debug, PartialEq, Eq, Structural)]
pub enum MountState {
    Mounted,
    NotMounted,
}

/// Why a mount table cannot be trusted.
#[derive(Clone, Copy, Debug, PartialEq, Eq, Structural)]
pub enum MtabError {
    /// The line with this number, counted from one, has fewer than three
    /// fields.
    MalformedLine { number: usize },
}

/// A line with fewer than three fields: it names no mount point and type.
pub open spec fn is_malformed(line: Seq<char>) -> bool {
    fields_of(line).len() < 3
}

/// A line that lists `target` as mounted through sshfs: its second field is
/// `target` and its third is [`FUSE_SSHFS`].
pub open spec fn is_sshfs_mount_of(line: Seq<char>, target: Seq<char>) -> bool {
    let fields = fields_of(line);
    fields.len() >= 3 && fields[1] == target && fields[2] == FUSE_SSHFS@
}

/// A line at which the scan stops.
pub open spec fn is_decisive(line: Seq<char>, target: Seq<char>) -> bool {
    is_malformed(line) || is_sshfs_mount_of(line, target)
}

/// The index of the first decisive line, or the number of lines if there is
/// none.
pub open spec fn first_decisive(lines: Seq<Seq<char>>, target: Seq<char>) -> nat
    decreases lines.len(),
{
    if lines.len() == 0 || is_decisive(lines[0], target) {
        0
    } else {
        1 + first_decisive(lines.drop_first(), target)
    }
}

/// What a scan of `lines` in order reports for `target`: the first decisive
/// line settles it, and a table without one lists no such mount.
pub open spec fn verdict(lines: Seq<Seq<char>>, target: Seq<char>) -> Result<
    MountState,
    MtabError,
> {
    let k = first_decisive(lines, target);
    if k >= lines.len() {
        Ok(MountState::NotMounted)
    } else if is_malformed(lines[k as int]) {
        Err(MtabError::MalformedLine { number: (k + 1) as usize })
    } else {
        Ok(MountState::Mounted)
    }
}

/// [`first_decisive`] is `k` if no line before `k` is decisive and `k` is a
/// decisive line or the end of the table.
pub proof fn lemma_first_decisive(lines: Seq<Seq<char>>, target: Seq<char>, k: int)
    requires
        0 <= k <= lines.len(),
        forall|j: int| 0 <= j < k ==> !is_decisive(#[trigger] lines[j], target),
        k < lines.len() ==> is_decisive(lines[k], target),
    ensures
        first_decisive(lines, target) == k,
    decreases lines.len(),
{
    if k > 0 {
        let rest = lines.drop_first();
        assert forall|j: int| 0 <= j < k - 1 implies !is_decisive(#[trigger] rest[j], target) by {
            assert(rest[j] == lines[j + 1]);
        }
        lemma_first_decisive(rest, target, k - 1);
    }
}

/// No line before [`first_decisive`] is decisive, and the line there is, if
/// there is one.
pub proof fn lemma_first_decisive_is_first(lines: Seq<Seq<char>>, target: Seq<char>)
    ensures
        first_decisive(lines, target) <= lines.len(),
        forall|j: int|
            0 <= j < first_decisive(lines, target) ==> !is_decisive(#[trigger] lines[j], target),
        first_decisive(lines, target) < lines.len() ==> is_decisive(
            lines[first_decisive(lines, target) as int],
            target,
        ),
    decreases lines.len(),
{
    if lines.len() > 0 && !is_decisive(lines[0], target) {
        let rest = lines.drop_first();
        lemma_first_decisive_is_first(rest, target);
        let k = first_decisive(lines, target);
        assert forall|j: int| 0 <= j < k implies !is_decisive(#[trigger] lines[j], target) by {
            if j > 0 {
                assert(lines[j] == rest[j - 1]);
            }
        }
    }
}

/// Where every malformed line of a table comes after a line that lists
/// `target` as an sshfs mount, the scan reports `Mounted` if some line lists
/// it so, and `NotMounted` otherwise.
pub proof fn lemma_mounted_iff_listed(lines: Seq<Seq<char>>, target: Seq<char>)
    requires
        forall|i: int|
            0 <= i < lines.len() && is_malformed(#[trigger] lines[i]) ==> exists|j: int|
                0 <= j < i && is_sshfs_mount_of(#[trigger] lines[j], target),
    ensures
        verdict(lines, target) == Ok::<MountState, MtabError>(
            if exists|i: int| 0 <= i < lines.len() && is_sshfs_mount_of(#[trigger] lines[i], target) {
                MountState::Mounted
            } else {
                MountState::NotMounted
            },
        ),
{
    lemma_first_decisive_is_first(lines, target);
    let k = first_decisive(lines, target) as int;
    if k < lines.len() && is_malformed(lines[k]) {
        let j = choose|j: int| 0 <= j < k && is_sshfs_mount_of(#[trigger] lines[j], target);
        assert(is_decisive(lines[j], target));
    }
}

/// A line with three fields or more whose second field is not `target`, or
/// whose third is not [`FUSE_SSHFS`], is passed over: the scan does not stop
/// at it, and reports `Mounted` with it exactly when it does without it.
pub proof fn lemma_mismatch_is_passed_over(lines: Seq<Seq<char>>, target: Seq<char>, k: int)
    requires
        0 <= k < lines.len(),
        fields_of(lines[k]).len() >= 3,
        fields_of(lines[k])[1] != target || fields_of(lines[k])[2] != FUSE_SSHFS@,
    ensures
        first_decisive(lines, target) != k,
        verdict(lines, target) == Ok::<MountState, MtabError>(MountState::Mounted) <==> verdict(
            lines.remove(k),
            target,
        ) == Ok::<MountState, MtabError>(MountState::Mounted),
{
    let without = lines.remove(k);
    lemma_first_decisive_is_first(lines, target);
    let a = first_decisive(lines, target) as int;
    if a < k {
        lemma_first_decisive(without, target, a);
    } else {
        assert forall|j: int| 0 <= j < a - 1 implies !is_decisive(
            #[trigger] without[j],
            target,
        ) by {
            assert(without[j] == lines[if j < k { j } else { j + 1 }]);
        }
        lemma_first_decisive(without, target, a - 1);
    }
}

/// The scan stops at the first decisive line: once a table has one, lines
/// that follow it change nothing.
pub proof fn lemma_verdict_ignores_what_follows(
    lines: Seq<Seq<char>>,
    more: Seq<Seq<char>>,
    target: Seq<char>,
)
    requires
        first_decisive(lines, target) < lines.len(),
    ensures
        verdict(lines + more, target) == verdict(lines, target),
{
    let k = first_decisive(lines, target) as int;
    lemma_first_decisive_is_first(lines, target);
    assert forall|j: int| 0 <= j < k implies !is_decisive(#[trigger] (lines + more)[j], target) by {
        assert((lines + more)[j] == lines[j]);
    }
    assert((lines + more)[k] == lines[k]);
    lemma_first_decisive(lines + more, target, k);
}

/// A table in which no line lists `target` as an sshfs mount is never
/// reported as `Mounted`.
pub proof fn lemma_unlisted_is_not_mounted(lines: Seq<Seq<char>>, target: Seq<char>)
    requires
        forall|i: int| 0 <= i < lines.len() ==> !is_sshfs_mount_of(#[trigger] lines[i], target),
    ensures
        verdict(lines, target) != Ok::<MountState, MtabError>(MountState::Mounted),
{
    lemma_first_decisive_is_first(lines, target);
}

/// Judges one line against `target`; `marker` holds [`FUSE_SSHFS`]. `None`
/// for a malformed line, else whether the line lists `target` as mounted
/// through sshfs.
fn match_line(line: &Vec<char>, target: &Vec<char>, marker: &Vec<char>) -> (r: Option<bool>)
    requires
        marker@ == FUSE_SSHFS@,
    ensures
        r == (if is_malformed(line@) {
            None
        } else {
            Some(is_sshfs_mount_of(line@, target@))
        }),
{
    let fields = split_fields(line);
    if fields.len() < 3 {
        return None;
    }
    proof {
        assert(fields.deep_view()[1] =~= fields[1]@);
        assert(fields.deep_view()[2] =~= fields[2]@);
    }
    Some(same_text(&fields[2], marker) && same_text(&fields[1], target))
}

/// Whether `mtab_line` lists `mountpoint` as mounted through sshfs; `None`
/// if the line has fewer than three fields.
pub fn fuse_mountpoint_matcher(mountpoint: &str, mtab_line: &str) -> (r: Option<bool>)
    ensures
        r == (if is_malformed(mtab_line@) {
            None
        } else {
            Some(is_sshfs_mount_of(mtab_line@, mountpoint@))
        }),
{
    let line = chars_of(mtab_line);
    let target = chars_of(mountpoint);
    let marker = chars_of(FUSE_SSHFS);
    match_line(&line, &target, &marker)
}

/// Scans the mount table `table` for `mountpoint`, which is compared as it
/// stands: hand in the canonical path. The first line that lists it as an
/// sshfs mount makes it `Mounted`; a line with fewer than three fields that
/// comes before any such line is an error.
pub fn detect_mode(table: &str, mountpoint: &str) -> (r: Result<MountState, MtabError>)
    ensures
        r == verdict(lines_of(table@), mountpoint@),
{
    let text = chars_of(table);
    let target = chars_of(mountpoint);
    let marker = chars_of(FUSE_SSHFS);
    let lines = split_lines(&text);
    let mut i: usize = 0;
    while i < lines.len()
        invariant
            i <= lines.len(),
            lines.deep_view() == lines_of(table@),
            target@ == mountpoint@,
            marker@ == FUSE_SSHFS@,
            forall|j: int| 0 <= j < i ==> !is_decisive(#[trigger] lines_of(table@)[j], mountpoint@),
        decreases lines.len() - i,
    {
        proof {
            assert(lines.deep_view()[i as int] =~= lines[i as int]@);
        }
        match match_line(&lines[i], &target, &marker) {
            None => {
                proof {
                    lemma_first_decisive(lines_of(table@), mountpoint@, i as int);
                }
                return Err(MtabError::MalformedLine { number: i + 1 });
            },
            Some(true) => {
                proof {
                    lemma_first_decisive(lines_of(table@), mountpoint@, i as int);
                }
                return Ok(MountState::Mounted);
            },
            Some(false) => {},
        }
        i += 1;
    }
    proof {
        lemma_first_decisive(lines_of(table@), mountpoint@, i as int);
    }
    Ok(MountState::NotMounted)
}

} // verus!
