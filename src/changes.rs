//! The working tree's changes against HEAD, and the status built from them.
use vstd::prelude::*;
use vstd::string::*;
use crate::text::{concat, dec, decimal, ends_with, has_suffix, lines_of, split_lines};

verus! {

/// One entry of a status scan of the working tree and index, with the flags
/// the scan reported and the file's current text, when it could be read.
#[derive(Debug, Clone)]
pub struct StatusEntry {
    pub path: String,
    pub wt_new: bool,
    pub index_new: bool,
    pub wt_modified: bool,
    pub index_modified: bool,
    pub wt_deleted: bool,
    pub content: Option<String>,
}

/// One top-level entry of the data directory, for the scan of untracked notes.
#[derive(Debug, Clone)]
pub struct DirectoryFile {
    pub name: String,
    pub is_file: bool,
    /// Whether the index holds the path.
    pub in_index: bool,
    pub content: Option<String>,
}

/// How a path changed.
#[derive(Debug, Clone, Copy, PartialEq, Eq, Structural)]
pub enum ChangeKind {
    Added,
    Modified,
    Deleted,
}

/// One changed file.
#[derive(Debug, Clone)]
pub struct SyncDiff {
    pub file_path: String,
    /// `added`, `modified` or `deleted`.
    pub status: String,
    pub local_content: Option<String>,
    pub remote_content: Option<String>,
    pub diff_content: String,
}

/// A changed file, as values.
pub struct DiffView {
    pub file_path: Seq<char>,
    pub status: Seq<char>,
    pub local_content: Option<Seq<char>>,
    pub remote_content: Option<Seq<char>>,
    pub diff_content: Seq<char>,
}

/// The view of an optional string.
pub open spec fn text_opt(o: Option<String>) -> Option<Seq<char>> {
    match o {
        Some(s) => Some(s@),
        None => None,
    }
}

impl View for SyncDiff {
    type V = DiffView;

    open spec fn view(&self) -> DiffView {
        DiffView {
            file_path: self.file_path@,
            status: self.status@,
            local_content: text_opt(self.local_content),
            remote_content: text_opt(self.remote_content),
            diff_content: self.diff_content@,
        }
    }
}

/// The kind of change a status entry reports, if any: an untracked or newly
/// staged file is added, then a modified file in the tree or index is
/// modified, then a file deleted from the tree is deleted.
pub open spec fn kind_spec(e: StatusEntry) -> Option<ChangeKind> {
    if e.wt_new || e.index_new {
        Some(ChangeKind::Added)
    } else if e.wt_modified || e.index_modified {
        Some(ChangeKind::Modified)
    } else if e.wt_deleted {
        Some(ChangeKind::Deleted)
    } else {
        None
    }
}

/// The name of a kind of change.
pub open spec fn kind_text(k: ChangeKind) -> Seq<char> {
    match k {
        ChangeKind::Added => "added"@,
        ChangeKind::Modified => "modified"@,
        ChangeKind::Deleted => "deleted"@,
    }
}

/// How many content lines an added file's diff shows.
pub const DIFF_LINE_LIMIT: usize = 50;

/// The `+` lines for the first `k` of `lines`.
pub open spec fn added_lines(lines: Seq<Seq<char>>, k: nat) -> Seq<char>
    decreases k,
{
    if k == 0 || k > lines.len() {
        Seq::empty()
    } else {
        added_lines(lines, (k - 1) as nat) + "+"@ + lines[k - 1] + "\n"@
    }
}

/// The diff of an added file with the given lines: a header, at most the
/// first fifty lines each prefixed with `+`, and a count of the lines left out.
pub open spec fn added_diff_lines_spec(path: Seq<char>, lines: Seq<Seq<char>>) -> Seq<char> {
    let n = lines.len();
    let shown = if n > DIFF_LINE_LIMIT { DIFF_LINE_LIMIT as nat } else { n };
    "--- /dev/null\n+++ "@ + path + "\n@@ -0,0 +1,"@ + dec(n) + " @@\n"@ + added_lines(lines, shown) + (
    if n > DIFF_LINE_LIMIT {
        "... and "@ + dec((n - DIFF_LINE_LIMIT) as nat) + " more lines\n"@
    } else {
        Seq::empty()
    })
}

/// The diff of an added file: built from its lines, or a one-line notice when
/// its text could not be read.
pub open spec fn added_diff_spec(path: Seq<char>, content: Option<Seq<char>>) -> Seq<char> {
    match content {
        Some(c) => added_diff_lines_spec(path, lines_of(c)),
        None => "New file: "@ + path,
    }
}

/// The notice for a modified file; a line-level diff is not produced.
pub open spec fn modified_diff_spec(path: Seq<char>) -> Seq<char> {
    "Modified file: "@ + path + " (detailed diff not implemented yet)"@
}

/// The notice for a deleted file.
pub open spec fn deleted_diff_spec(path: Seq<char>) -> Seq<char> {
    "File deleted: "@ + path
}

/// The change reported for a path of the given kind.
pub open spec fn change_spec(path: Seq<char>, kind: ChangeKind, content: Option<Seq<char>>) -> DiffView {
    DiffView {
        file_path: path,
        status: kind_text(kind),
        local_content: content,
        remote_content: None,
        diff_content: match kind {
            ChangeKind::Added => added_diff_spec(path, content),
            ChangeKind::Modified => modified_diff_spec(path),
            ChangeKind::Deleted => deleted_diff_spec(path),
        },
    }
}

/// The changes that a status scan reports, in scan order.
pub open spec fn scan_changes(entries: Seq<StatusEntry>) -> Seq<DiffView>
    decreases entries.len(),
{
    if entries.len() == 0 {
        Seq::empty()
    } else {
        let rest = scan_changes(entries.drop_last());
        let e = entries.last();
        match kind_spec(e) {
            Some(k) => rest.push(change_spec(e.path@, k, text_opt(e.content))),
            None => rest,
        }
    }
}

/// Whether a directory entry is a note file, with a `.md` extension, that the index lacks.
pub open spec fn untracked_note(f: DirectoryFile) -> bool {
    f.is_file && !f.in_index && f.name@.len() > 3 && has_suffix(f.name@, ".md"@)
}

/// The untracked note files of a directory listing, as added files.
pub open spec fn untracked_changes(files: Seq<DirectoryFile>) -> Seq<DiffView>
    decreases files.len(),
{
    if files.len() == 0 {
        Seq::empty()
    } else {
        let rest = untracked_changes(files.drop_last());
        let f = files.last();
        if untracked_note(f) {
            rest.push(change_spec(f.name@, ChangeKind::Added, text_opt(f.content)))
        } else {
            rest
        }
    }
}

/// The local changes: those of the status scan, or, when it reports none, the
/// untracked note files of the directory.
pub open spec fn local_changes_spec(entries: Seq<StatusEntry>, files: Seq<DirectoryFile>) -> Seq<DiffView> {
    if scan_changes(entries).len() == 0 {
        untracked_changes(files)
    } else {
        scan_changes(entries)
    }
}

/// The views of a sequence of changes.
pub open spec fn diff_views(v: Seq<SyncDiff>) -> Seq<DiffView> {
    v.map_values(|d: SyncDiff| d@)
}

/// The kind of change a status entry reports, if any.
pub fn classify(e: &StatusEntry) -> (r: Option<ChangeKind>)
    ensures
        r == kind_spec(*e),
{
    if e.wt_new || e.index_new {
        Some(ChangeKind::Added)
    } else if e.wt_modified || e.index_modified {
        Some(ChangeKind::Modified)
    } else if e.wt_deleted {
        Some(ChangeKind::Deleted)
    } else {
        None
    }
}

/// The name of a kind of change.
pub fn kind_name(k: ChangeKind) -> (r: String)
    ensures
        r@ == kind_text(k),
{
    match k {
        ChangeKind::Added => String::from_str("added"),
        ChangeKind::Modified => String::from_str("modified"),
        ChangeKind::Deleted => String::from_str("deleted"),
    }
}

/// The diff of an added file with the given lines.
pub fn added_diff_from_lines(path: &str, lines: &Vec<String>) -> (r: String)
    ensures
        r@ == added_diff_lines_spec(path@, lines@.map_values(|l: String| l@)),
{
    let ghost ls = lines@.map_values(|l: String| l@);
    let n = lines.len();
    let mut out = concat("--- /dev/null\n+++ ", path);
    out.append("\n@@ -0,0 +1,");
    let count = decimal(n);
    out.append(count.as_str());
    out.append(" @@\n");
    let ghost header = out@;
    let shown = if n > DIFF_LINE_LIMIT { DIFF_LINE_LIMIT } else { n };
    let mut i: usize = 0;
    while i < shown
        invariant
            shown <= n == lines@.len(),
            i <= shown,
            ls == lines@.map_values(|l: String| l@),
            out@ == header + added_lines(ls, i as nat),
        decreases shown - i,
    {
        let ghost before = out@;
        out.append("+");
        out.append(lines[i].as_str());
        out.append("\n");
        proof {
            assert(added_lines(ls, (i + 1) as nat) == added_lines(ls, i as nat) + "+"@ + ls[i as int] + "\n"@);
            assert(out@ =~= header + added_lines(ls, (i + 1) as nat));
        }
        i = i + 1;
    }
    if n > DIFF_LINE_LIMIT {
        let ghost before = out@;
        out.append("... and ");
        let more = decimal(n - DIFF_LINE_LIMIT);
        out.append(more.as_str());
        out.append(" more lines\n");
        proof {
            assert(out@ =~= before + ("... and "@ + dec((n - DIFF_LINE_LIMIT) as nat) + " more lines\n"@));
        }
    } else {
        proof {
            assert(out@ =~= out@ + Seq::<char>::empty());
        }
    }
    out
}

/// The diff of an added file; `content` is `None` when it could not be read.
pub fn added_file_diff(path: &str, content: &Option<String>) -> (r: String)
    ensures
        r@ == added_diff_spec(path@, text_opt(*content)),
{
    match content {
        Some(c) => {
            let lines = split_lines(c.as_str());
            proof {
                assert(lines@.map_values(|l: String| l@) =~= lines_of(c@));
            }
            added_diff_from_lines(path, &lines)
        },
        None => concat("New file: ", path),
    }
}

/// The notice for a modified file.
pub fn modified_file_diff(path: &str) -> (r: String)
    ensures
        r@ == modified_diff_spec(path@),
{
    let mut s = concat("Modified file: ", path);
    s.append(" (detailed diff not implemented yet)");
    s
}

/// The notice for a deleted file.
pub fn deleted_file_diff(path: &str) -> (r: String)
    ensures
        r@ == deleted_diff_spec(path@),
{
    concat("File deleted: ", path)
}

/// The change reported for a path of the given kind.
pub fn describe_change(path: &String, kind: ChangeKind, content: &Option<String>) -> (r: SyncDiff)
    ensures
        r@ == change_spec(path@, kind, text_opt(*content)),
{
    let diff_content = match kind {
        ChangeKind::Added => added_file_diff(path.as_str(), content),
        ChangeKind::Modified => modified_file_diff(path.as_str()),
        ChangeKind::Deleted => deleted_file_diff(path.as_str()),
    };
    SyncDiff {
        file_path: path.clone(),
        status: kind_name(kind),
        local_content: content.clone(),
        remote_content: None,
        diff_content,
    }
}

/// Whether a directory entry is a note file that the index lacks.
pub fn is_untracked_note(f: &DirectoryFile) -> (r: bool)
    ensures
        r == untracked_note(*f),
{
    f.is_file && !f.in_index && f.name.as_str().unicode_len() > 3 && ends_with(f.name.as_str(), ".md")
}

/// The local changes, given a status scan and a listing of the data
/// directory: the changes the scan reports, or, when it reports none, the
/// untracked note files.
pub fn collect_local_changes(entries: &Vec<StatusEntry>, files: &Vec<DirectoryFile>) -> (r: Vec<SyncDiff>)
    ensures
        diff_views(r@) == local_changes_spec(entries@, files@),
{
    let mut out: Vec<SyncDiff> = Vec::new();
    let mut i: usize = 0;
    while i < entries.len()
        invariant
            i <= entries@.len(),
            diff_views(out@) == scan_changes(entries@.subrange(0, i as int)),
        decreases entries@.len() - i,
    {
        let e = &entries[i];
        let ghost prefix = entries@.subrange(0, i as int);
        proof {
            assert(entries@.subrange(0, i as int + 1).drop_last() =~= prefix);
            assert(entries@.subrange(0, i as int + 1).last() == *e);
        }
        match classify(e) {
            Some(k) => {
                let d = describe_change(&e.path, k, &e.content);
                let ghost before = out@;
                out.push(d);
                proof {
                    assert(diff_views(out@) =~= diff_views(before).push(d@));
                }
            },
            None => {},
        }
        i = i + 1;
    }
    proof {
        assert(entries@.subrange(0, entries@.len() as int) =~= entries@);
    }
    if out.len() == 0 {
        proof {
            assert(diff_views(out@).len() == 0);
        }
        let mut j: usize = 0;
        while j < files.len()
            invariant
                j <= files@.len(),
                scan_changes(entries@).len() == 0,
                diff_views(out@) == untracked_changes(files@.subrange(0, j as int)),
            decreases files@.len() - j,
        {
            let f = &files[j];
            let ghost prefix = files@.subrange(0, j as int);
            proof {
                assert(files@.subrange(0, j as int + 1).drop_last() =~= prefix);
                assert(files@.subrange(0, j as int + 1).last() == *f);
            }
            if is_untracked_note(f) {
                let d = describe_change(&f.name, ChangeKind::Added, &f.content);
                let ghost before = out@;
                out.push(d);
                proof {
                    assert(diff_views(out@) =~= diff_views(before).push(d@));
                }
            }
            j = j + 1;
        }
        proof {
            assert(files@.subrange(0, files@.len() as int) =~= files@);
        }
    }
    out
}

/// The synchronisation state at one moment.
#[derive(Debug, Clone)]
pub struct SyncStatus {
    pub is_syncing: bool,
    pub last_sync: Option<String>,
    pub has_conflicts: bool,
    /// The number of changed paths in the working tree.
    pub local_changes: usize,
    /// The number of remote commits the local branch lacks.
    pub remote_changes: usize,
}

/// The status for a scan of the working tree: its count of local changes is
/// the number of changes that [`collect_local_changes`] lists for the same scan.
pub fn build_sync_status(
    entries: &Vec<StatusEntry>,
    files: &Vec<DirectoryFile>,
    remote_changes: usize,
    last_sync: Option<String>,
) -> (r: SyncStatus)
    ensures
        r.local_changes == local_changes_spec(entries@, files@).len(),
        r.remote_changes == remote_changes,
        r.last_sync == last_sync,
        !r.is_syncing,
        !r.has_conflicts,
{
    let changes = collect_local_changes(entries, files);
    SyncStatus {
        is_syncing: false,
        last_sync,
        has_conflicts: false,
        local_changes: changes.len(),
        remote_changes,
    }
}

/// The status and the change list agree: for any scan, the status counts
/// exactly the changes that the change list holds.
pub proof fn lemma_status_counts_changes(
    entries: Seq<StatusEntry>,
    files: Seq<DirectoryFile>,
    status: SyncStatus,
    changes: Seq<SyncDiff>,
)
    requires
        status.local_changes == local_changes_spec(entries, files).len(),
        diff_views(changes) == local_changes_spec(entries, files),
    ensures
        status.local_changes == changes.len(),
{
    assert(diff_views(changes).len() == changes.len());
}

} // verus!
