//! Commit listings: the local history and the remote commits not yet pulled.
use vstd::prelude::*;
use vstd::string::*;

verus! {

/// How many remote commits a listing of unpulled commits shows at most.
pub const REMOTE_COMMIT_LIMIT: usize = 10;

/// One commit as the history walk reads it.
#[derive(Debug, Clone)]
pub struct RawCommit {
    pub id: String,
    /// The first line of the message, when it is valid text.
    pub summary: Option<String>,
    /// The author's name, when it is valid text.
    pub author: Option<String>,
    /// Commit time, in seconds since the Unix epoch.
    pub seconds: i64,
}

/// One commit of a listing.
#[derive(Debug, Clone)]
pub struct RemoteCommit {
    pub id: String,
    pub title: String,
    /// The commit time as RFC 3339 text.
    pub time: String,
    pub author: String,
}

/// The RFC 3339 text of the UTC time `secs` seconds after the Unix epoch.
pub uninterp spec fn rfc3339_of(secs: int) -> Seq<char>;

/// Relies on chrono's `DateTime::<Utc>::from_timestamp(secs, 0)` and
/// `DateTime::to_rfc3339`: when the instant is representable, its RFC 3339 text.
#[verifier::external_body]
fn utc_rfc3339(secs: i64) -> (r: Option<String>)
    ensures
        r matches Some(s) ==> s@ == rfc3339_of(secs as int),
{
    chrono::DateTime::from_timestamp(secs, 0).map(|d| d.to_rfc3339())
}

/// Relies on chrono's `Utc::now` and `DateTime::to_rfc3339`: the current time as
/// RFC 3339 text. Nothing is promised of its value.
#[verifier::external_body]
fn now_rfc3339() -> (r: String) {
    chrono::Utc::now().to_rfc3339()
}

/// The commit time as RFC 3339 text; the current time when chrono cannot
/// represent the instant.
pub fn commit_time_text(secs: i64) -> (r: String) {
    match utc_rfc3339(secs) {
        Some(t) => t,
        None => now_rfc3339(),
    }
}

/// The title shown for a commit.
pub open spec fn title_spec(summary: Option<String>) -> Seq<char> {
    match summary {
        Some(s) => s@,
        None => "No message"@,
    }
}

/// The author shown for a commit.
pub open spec fn author_spec(author: Option<String>) -> Seq<char> {
    match author {
        Some(a) => a@,
        None => "Unknown"@,
    }
}

/// Whether `e` lists `c`, with the given time text.
pub open spec fn lists(e: RemoteCommit, c: RawCommit, time: Seq<char>) -> bool {
    &&& e.id@ == c.id@
    &&& e.title@ == title_spec(c.summary)
    &&& e.author@ == author_spec(c.author)
    &&& e.time@ == time
}

/// The listing entry of one commit with its time text.
pub fn commit_entry(c: &RawCommit, time: String) -> (r: RemoteCommit)
    ensures
        lists(r, *c, time@),
{
    let title = match &c.summary {
        Some(s) => s.clone(),
        None => String::from_str("No message"),
    };
    let author = match &c.author {
        Some(a) => a.clone(),
        None => String::from_str("Unknown"),
    };
    RemoteCommit { id: c.id.clone(), title, time, author }
}

/// The first `limit` commits of a walk, in walk order.
pub fn commit_list(walk: &Vec<RawCommit>, limit: usize) -> (r: Vec<RemoteCommit>)
    ensures
        r@.len() == if walk@.len() < limit { walk@.len() } else { limit as nat },
        forall|i: int|
            0 <= i < r@.len() ==> #[trigger] r@[i].id@ == walk@[i].id@ && r@[i].title@ == title_spec(
                walk@[i].summary,
            ) && r@[i].author@ == author_spec(walk@[i].author),
{
    let mut out: Vec<RemoteCommit> = Vec::new();
    let mut i: usize = 0;
    while i < walk.len() && i < limit
        invariant
            i <= walk@.len(),
            i <= limit,
            out@.len() == i,
            forall|j: int|
                0 <= j < i ==> #[trigger] out@[j].id@ == walk@[j].id@ && out@[j].title@ == title_spec(
                    walk@[j].summary,
                ) && out@[j].author@ == author_spec(walk@[j].author),
        decreases walk@.len() - i,
    {
        let time = commit_time_text(walk[i].seconds);
        let e = commit_entry(&walk[i], time);
        out.push(e);
        i = i + 1;
    }
    out
}

/// The remote commits not yet pulled: none when the local branch is not
/// behind, otherwise the first ten of the walk from the remote tip that
/// hides the local head.
pub fn remote_commit_list(behind: usize, walk: &Vec<RawCommit>) -> (r: Vec<RemoteCommit>)
    ensures
        behind == 0 ==> r@.len() == 0,
        behind > 0 ==> r@.len() == if walk@.len() < REMOTE_COMMIT_LIMIT { walk@.len() } else { REMOTE_COMMIT_LIMIT as nat },
        forall|i: int|
            0 <= i < r@.len() ==> #[trigger] r@[i].id@ == walk@[i].id@ && r@[i].title@ == title_spec(
                walk@[i].summary,
            ) && r@[i].author@ == author_spec(walk@[i].author),
{
    if behind == 0 {
        Vec::new()
    } else {
        commit_list(walk, REMOTE_COMMIT_LIMIT)
    }
}

} // verus!
