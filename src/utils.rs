//! File-name and note-text helpers.
use vstd::prelude::*;
use vstd::string::*;
use crate::replay::views;
use crate::text::{
    chars_of, char_range, concat, dec, decimal, lines_of, lower_of, path_join, join_path, same_text,
    split_lines, string_of, to_lower, trim, trim_of,
};

verus! {

/// Whether a character may not stand in a file name.
pub open spec fn forbidden(c: char) -> bool {
    c == '/' || c == '\\' || c == ':' || c == '*' || c == '?' || c == '"' || c == '<' || c == '>'
        || c == '|'
}

/// A name with every forbidden character replaced by `_`.
pub open spec fn sanitized(name: Seq<char>) -> Seq<char> {
    name.map_values(|c: char| if forbidden(c) { '_' } else { c })
}

/// Replaces every character that may not stand in a file name with `_`.
pub fn sanitize_filename(filename: &str) -> (r: String)
    ensures
        r@ == sanitized(filename@),
{
    let v = chars_of(filename);
    let mut out: Vec<char> = Vec::new();
    let mut i: usize = 0;
    while i < v.len()
        invariant
            i <= v@.len(),
            v@ == filename@,
            out@ == sanitized(v@.subrange(0, i as int)),
        decreases v@.len() - i,
    {
        let c = v[i];
        let d = if c == '/' || c == '\\' || c == ':' || c == '*' || c == '?' || c == '"' || c == '<'
            || c == '>' || c == '|' {
            '_'
        } else {
            c
        };
        out.push(d);
        i = i + 1;
        proof {
            assert(out@ =~= sanitized(v@.subrange(0, i as int)));
        }
    }
    proof {
        assert(v@.subrange(0, v@.len() as int) =~= v@);
    }
    string_of(out.as_slice())
}

/// The `n`-th candidate name: `base.ext`, then `base_1.ext`, `base_2.ext`, ...
pub open spec fn candidate_name(base: Seq<char>, ext: Seq<char>, n: nat) -> Seq<char> {
    if n == 0 {
        base + "."@ + ext
    } else {
        base + "_"@ + dec(n) + "."@ + ext
    }
}

/// The `n`-th candidate name.
fn candidate(base: &str, ext: &str, n: usize) -> (r: String)
    ensures
        r@ == candidate_name(base@, ext@, n as nat),
{
    if n == 0 {
        let mut s = concat(base, ".");
        s.append(ext);
        s
    } else {
        let mut s = concat(base, "_");
        let d = decimal(n);
        s.append(d.as_str());
        s.append(".");
        s.append(ext);
        s
    }
}

/// A path in `dir` for a file named after `base_name` (sanitised) with
/// extension `extension` that is not among `existing`, the names already in
/// `dir`: the first free one of `base.ext`, `base_1.ext`, `base_2.ext`, ...
/// It is `None` only when every one of the first `existing.len() + 1`
/// candidates is taken, which distinct names make impossible.
pub fn generate_unique_filename(dir: &str, base_name: &str, extension: &str, existing: &Vec<String>) -> (r: Option<String>)
    ensures
        r matches Some(p) ==> exists|n: nat|
            {
                &&& n <= existing@.len()
                &&& p@ == path_join(dir@, candidate_name(sanitized(base_name@), extension@, n))
                &&& !views(existing@).contains(candidate_name(sanitized(base_name@), extension@, n))
                &&& forall|m: nat| m < n ==> views(existing@).contains(
                    #[trigger] candidate_name(sanitized(base_name@), extension@, m),
                )
            },
        r is None ==> forall|m: nat| m <= existing@.len() ==> views(existing@).contains(
            #[trigger] candidate_name(sanitized(base_name@), extension@, m),
        ),
{
    let base = sanitize_filename(base_name);
    let mut n: usize = 0;
    loop
        invariant
            n <= existing@.len(),
            base@ == sanitized(base_name@),
            forall|m: nat| m < n ==> views(existing@).contains(
                #[trigger] candidate_name(sanitized(base_name@), extension@, m),
            ),
        decreases existing@.len() - n,
    {
        let name = candidate(base.as_str(), extension, n);
        if !crate::init::listed(&name, existing) {
            let p = join_path(dir, name.as_str());
            proof {
                let w = n as nat;
                assert(p@ == path_join(dir@, candidate_name(sanitized(base_name@), extension@, w)));
            }
            return Some(p);
        }
        if n >= existing.len() {
            return None;
        }
        n = n + 1;
    }
}

/// Whether a trimmed line is a heading.
pub open spec fn is_heading(line: Seq<char>) -> bool {
    line.len() > 0 && line[0] == '#'
}

/// A line without its leading `#` characters.
pub open spec fn strip_hashes(line: Seq<char>) -> Seq<char>
    decreases line.len(),
{
    if line.len() > 0 && line[0] == '#' {
        strip_hashes(line.drop_first())
    } else {
        line
    }
}

/// The title a heading line gives: its text after the `#`s, trimmed.
pub open spec fn heading_title(line: Seq<char>) -> Seq<char> {
    trim_of(strip_hashes(trim_of(line)))
}

/// The index of the first line that is a heading with a non-empty title.
pub open spec fn first_heading(lines: Seq<Seq<char>>, i: int) -> bool {
    &&& 0 <= i < lines.len()
    &&& is_heading(trim_of(lines[i]))
    &&& heading_title(lines[i]).len() > 0
}

/// The index of the first line that is not blank.
pub open spec fn nonblank(lines: Seq<Seq<char>>, i: int) -> bool {
    0 <= i < lines.len() && trim_of(lines[i]).len() > 0
}

/// At most the first fifty characters of a line, followed by `...`.
pub open spec fn excerpt(line: Seq<char>) -> Seq<char> {
    let t = trim_of(line);
    (if t.len() > 50 { t.subrange(0, 50) } else { t }) + "..."@
}

/// The title of a note's text: the first heading with text; else the first
/// non-blank line, cut to fifty characters and followed by `...`; else `Untitled`.
pub open spec fn title_spec(content: Seq<char>) -> Seq<char> {
    let lines = lines_of(content);
    if exists|i: int| first_heading(lines, i) {
        let i = choose|i: int| first_heading(lines, i) && forall|j: int| 0 <= j < i ==> !first_heading(lines, j);
        heading_title(lines[i])
    } else if exists|i: int| nonblank(lines, i) {
        let i = choose|i: int| nonblank(lines, i) && forall|j: int| 0 <= j < i ==> !nonblank(lines, j);
        excerpt(lines[i])
    } else {
        "Untitled"@
    }
}

/// A line without its leading `#` characters.
fn without_hashes(line: &str) -> (r: String)
    ensures
        r@ == strip_hashes(line@),
{
    let v = chars_of(line);
    let mut i: usize = 0;
    proof {
        assert(v@.subrange(0, v@.len() as int) =~= v@);
    }
    while i < v.len() && v[i] == '#'
        invariant
            i <= v@.len(),
            v@ == line@,
            strip_hashes(v@) == strip_hashes(v@.subrange(i as int, v@.len() as int)),
        decreases v@.len() - i,
    {
        proof {
            let s = v@.subrange(i as int, v@.len() as int);
            assert(s.drop_first() =~= v@.subrange(i as int + 1, v@.len() as int));
        }
        i = i + 1;
    }
    let rest = char_range(&v, i, v.len());
    string_of(rest.as_slice())
}

/// The title of a note's text.
pub fn extract_title_from_markdown(content: &str) -> (r: String)
    ensures
        r@ == title_spec(content@),
{
    let lines = split_lines(content);
    let ghost ls = lines_of(content@);
    let mut i: usize = 0;
    while i < lines.len()
        invariant
            i <= lines@.len() == ls.len(),
            ls == lines_of(content@),
            forall|k: int| 0 <= k < lines@.len() ==> #[trigger] lines@[k]@ == ls[k],
            forall|j: int| 0 <= j < i ==> !first_heading(ls, j),
        decreases lines@.len() - i,
    {
        let t = trim(lines[i].as_str());
        let tv = chars_of(t.as_str());
        if tv.len() > 0 && tv[0] == '#' {
            let stripped = without_hashes(t.as_str());
            let title = trim(stripped.as_str());
            if title.as_str().unicode_len() > 0 {
                proof {
                    assert(first_heading(ls, i as int));
                    let c = choose|c: int| first_heading(ls, c) && forall|j: int| 0 <= j < c ==> !first_heading(ls, j);
                    assert(c == i) by {
                        if c < i {
                        } else if c > i {
                        }
                    }
                }
                return title;
            }
        }
        i = i + 1;
    }
    let mut k: usize = 0;
    while k < lines.len()
        invariant
            k <= lines@.len() == ls.len(),
            ls == lines_of(content@),
            forall|m: int| 0 <= m < lines@.len() ==> #[trigger] lines@[m]@ == ls[m],
            forall|j: int| 0 <= j < lines@.len() ==> !first_heading(ls, j),
            forall|j: int| 0 <= j < k ==> !nonblank(ls, j),
        decreases lines@.len() - k,
    {
        let t = trim(lines[k].as_str());
        let tv = chars_of(t.as_str());
        if tv.len() > 0 {
            let cut = if tv.len() > 50 { char_range(&tv, 0, 50) } else { char_range(&tv, 0, tv.len()) };
            let mut out = string_of(cut.as_slice());
            out.append("...");
            proof {
                assert(tv@.subrange(0, tv@.len() as int) =~= tv@);
                assert(nonblank(ls, k as int));
                let c = choose|c: int| nonblank(ls, c) && forall|j: int| 0 <= j < c ==> !nonblank(ls, j);
                assert(c == k) by {
                    if c < k {
                    } else if c > k {
                    }
                }
            }
            return out;
        }
        k = k + 1;
    }
    String::from_str("Untitled")
}

/// The MIME type for a lower-case file extension.
pub open spec fn mime_spec(ext: Seq<char>) -> Seq<char> {
    if ext == "png"@ { "image/png"@ }
    else if ext == "jpg"@ || ext == "jpeg"@ { "image/jpeg"@ }
    else if ext == "gif"@ { "image/gif"@ }
    else if ext == "svg"@ { "image/svg+xml"@ }
    else if ext == "pdf"@ { "application/pdf"@ }
    else if ext == "txt"@ { "text/plain"@ }
    else if ext == "md"@ { "text/markdown"@ }
    else if ext == "html"@ { "text/html"@ }
    else if ext == "json"@ { "application/json"@ }
    else if ext == "xml"@ { "application/xml"@ }
    else { "application/octet-stream"@ }
}

/// The MIME type for a file extension, compared without regard to case.
pub fn get_mime_type_from_extension(extension: &str) -> (r: &'static str)
    ensures
        r@ == mime_spec(lower_of(extension@)),
{
    let e = to_lower(extension);
    let s = e.as_str();
    if same_text(s, "png") { "image/png" }
    else if same_text(s, "jpg") || same_text(s, "jpeg") { "image/jpeg" }
    else if same_text(s, "gif") { "image/gif" }
    else if same_text(s, "svg") { "image/svg+xml" }
    else if same_text(s, "pdf") { "application/pdf" }
    else if same_text(s, "txt") { "text/plain" }
    else if same_text(s, "md") { "text/markdown" }
    else if same_text(s, "html") { "text/html" }
    else if same_text(s, "json") { "application/json" }
    else if same_text(s, "xml") { "application/xml" }
    else { "application/octet-stream" }
}

} // verus!
