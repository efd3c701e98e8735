//! Naming of note files in the notes directory.
use vstd::prelude::*;
use vstd::string::*;
use crate::replay::views;
use crate::text::{chars_of, char_range, concat, dec, decimal, join_path, path_join, string_of, trim, trim_of};

verus! {

/// The most numbered variants tried for a note's file name.
pub const MAX_NAME_SUFFIX: usize = 1000;

/// The longest sanitised title, in characters.
pub const MAX_TITLE_CHARS: usize = 100;

/// Where note files live.
#[derive(Debug, Clone)]
pub struct FileStorageManager {
    pub notes_directory: String,
}

/// A file of the notes directory and its modification time in seconds since
/// the Unix epoch, when known.
#[derive(Debug, Clone)]
pub struct FileInfo {
    pub name: String,
    pub modified: Option<i64>,
}

/// Whether a character may not stand in a note's file name: the reserved
/// characters and the control characters.
pub open spec fn unfit(c: char) -> bool {
    c == '<' || c == '>' || c == ':' || c == '"' || c == '/' || c == '\\' || c == '|' || c == '?'
        || c == '*' || ('\u{0}' <= c && c <= '\u{1f}') || ('\u{7f}' <= c && c <= '\u{9f}')
}

/// A title with unfit characters replaced by `_`.
pub open spec fn replaced(title: Seq<char>) -> Seq<char> {
    title.map_values(|c: char| if unfit(c) { '_' } else { c })
}

/// The file-name base for a title: unfit characters replaced by `_`;
/// `Untitled` when nothing but whitespace is left; at most the first hundred
/// characters; trimmed.
pub open spec fn note_base(title: Seq<char>) -> Seq<char> {
    let r = replaced(title);
    let r = if trim_of(r).len() == 0 { "Untitled"@ } else { r };
    let r = if r.len() > MAX_TITLE_CHARS { r.subrange(0, MAX_TITLE_CHARS as int) } else { r };
    trim_of(r)
}

/// The `n`-th candidate file name for a base: `base.md`, then `base(1).md`, ...
pub open spec fn note_name(base: Seq<char>, n: nat) -> Seq<char> {
    if n == 0 {
        base + ".md"@
    } else {
        base + "("@ + dec(n) + ").md"@
    }
}

/// The stem of a file name: without its last extension, unless the only dot
/// leads the name.
pub open spec fn stem_spec(name: Seq<char>) -> Seq<char> {
    if exists|i: int| 0 < i < name.len() && name[i] == '.' {
        let i = choose|i: int| 0 < i < name.len() && name[i] == '.' && forall|j: int| i < j < name.len() ==> name[j] != '.';
        name.subrange(0, i)
    } else {
        name
    }
}

impl FileStorageManager {
    /// Storage in `notes_directory`; the caller creates the directory.
    pub fn new(notes_directory: String) -> (r: FileStorageManager)
        ensures
            r.notes_directory == notes_directory,
    {
        FileStorageManager { notes_directory }
    }

    /// The file-name base for a note's title.
    pub fn sanitize_filename(&self, title: &str) -> (r: String)
        ensures
            r@ == note_base(title@),
    {
        let v = chars_of(title);
        let mut out: Vec<char> = Vec::new();
        let mut i: usize = 0;
        while i < v.len()
            invariant
                i <= v@.len(),
                v@ == title@,
                out@ == replaced(v@.subrange(0, i as int)),
            decreases v@.len() - i,
        {
            let c = v[i];
            let bad = c == '<' || c == '>' || c == ':' || c == '"' || c == '/' || c == '\\' || c == '|'
                || c == '?' || c == '*' || ('\u{0}' <= c && c <= '\u{1f}') || ('\u{7f}' <= c && c
                <= '\u{9f}');
            out.push(if bad { '_' } else { c });
            i = i + 1;
            proof {
                assert(out@ =~= replaced(v@.subrange(0, i as int)));
            }
        }
        proof {
            assert(v@.subrange(0, v@.len() as int) =~= v@);
        }
        let s = string_of(out.as_slice());
        let t = trim(s.as_str());
        let s = if t.as_str().unicode_len() == 0 {
            String::from_str("Untitled")
        } else {
            s
        };
        let sv = chars_of(s.as_str());
        let s = if sv.len() > MAX_TITLE_CHARS {
            string_of(char_range(&sv, 0, MAX_TITLE_CHARS).as_slice())
        } else {
            s
        };
        trim(s.as_str())
    }

    /// The title a file name gives: its stem.
    pub fn extract_title_from_file_name(&self, file_name: &str) -> (r: String)
        ensures
            r@ == stem_spec(file_name@),
    {
        let v = chars_of(file_name);
        let mut i: usize = v.len();
        while i > 1
            invariant
                i <= v@.len(),
                v@ == file_name@,
                forall|j: int| i <= j < v@.len() ==> v@[j] != '.',
            decreases i,
        {
            if v[i - 1] == '.' {
                let k = i - 1;
                let stem = char_range(&v, 0, k);
                proof {
                    assert(0 < k < v@.len() && v@[k as int] == '.');
                    let c = choose|c: int| 0 < c < v@.len() && v@[c] == '.' && forall|j: int| c < j < v@.len() ==> v@[j] != '.';
                    assert(c == k) by {
                        if c < k {
                            assert(v@[k as int] != '.');
                        } else if c > k {
                        }
                    }
                }
                return string_of(stem.as_slice());
            }
            i = i - 1;
        }
        proof {
            assert(!exists|j: int| 0 < j < v@.len() && v@[j] == '.');
        }
        String::from_str(file_name)
    }

    /// The `n`-th candidate file name for a base.
    fn note_file_name(base: &str, n: usize) -> (r: String)
        ensures
            r@ == note_name(base@, n as nat),
    {
        if n == 0 {
            concat(base, ".md")
        } else {
            let mut s = concat(base, "(");
            let d = decimal(n);
            s.append(d.as_str());
            s.append(").md");
            s
        }
    }

    /// A path for a new note with `title` that is not among `existing`, the
    /// file names already in the notes directory: `base.md`, or else the first
    /// free `base(n).md` with `n` from 1 to 1000; an error when all are taken.
    pub fn generate_unique_file_path(&self, title: &str, existing: &Vec<String>) -> (r: Result<String, String>)
        ensures
            r matches Ok(p) ==> exists|n: nat|
                {
                    &&& n <= MAX_NAME_SUFFIX
                    &&& p@ == path_join(self.notes_directory@, note_name(note_base(title@), n))
                    &&& !views(existing@).contains(note_name(note_base(title@), n))
                    &&& forall|m: nat| m < n ==> views(existing@).contains(
                        #[trigger] note_name(note_base(title@), m),
                    )
                },
            r is Err <==> forall|m: nat| m <= MAX_NAME_SUFFIX ==> views(existing@).contains(
                #[trigger] note_name(note_base(title@), m),
            ),
    {
        let base = self.sanitize_filename(title);
        let mut n: usize = 0;
        loop
            invariant
                n <= MAX_NAME_SUFFIX,
                base@ == note_base(title@),
                forall|m: nat| m < n ==> views(existing@).contains(#[trigger] note_name(note_base(title@), m)),
            decreases MAX_NAME_SUFFIX - n,
        {
            let name = Self::note_file_name(base.as_str(), n);
            if !crate::init::listed(&name, existing) {
                let p = join_path(self.notes_directory.as_str(), name.as_str());
                proof {
                    let w = n as nat;
                    assert(p@ == path_join(self.notes_directory@, note_name(note_base(title@), w)));
                    assert(!(forall|m: nat| m <= MAX_NAME_SUFFIX ==> views(existing@).contains(
                        #[trigger] note_name(note_base(title@), m),
                    )));
                }
                return Ok(p);
            }
            if n >= MAX_NAME_SUFFIX {
                return Err(String::from_str("Failed to generate unique file path"));
            }
            n = n + 1;
        }
    }
}

} // verus!
