//! The cache of repository snapshots, as decisions. A snapshot's archive is
//! kept under a name made of provider, owner, repository and revision; what
//! is extracted from it goes to a directory named by that key and the digest
//! of the archive's bytes, so that the same bytes are extracted once.
//!
//! Nothing here touches the disk or the network. `RepoDef::download` names
//! the first step, the caller performs each step and reports what came of
//! it, and `RepoDef::advance` names the next.

use vstd::prelude::*;
use vstd::string::StringExecFns;
use crate::repo_def::RepoDef;
use crate::repo_def::RepoDefView;
use crate::template::Template;
use crate::template::TemplateView;
use crate::utils::hash_buffer;
use crate::utils::hashable;
use crate::utils::is_hashable;
use crate::utils::sha512_hex;

verus! {

/// For how many seconds after it was written an archive is used without
/// asking the network at all.
pub const FRESH_SECS: u64 = 60;

/// A point in time, as seconds and nanoseconds since the Unix epoch.
#[derive(Debug, Clone, Copy, PartialEq, Eq, Structural)]
pub struct Timestamp {
    pub secs: u64,
    pub nanos: u32,
}

impl Timestamp {
    /// The point in time in nanoseconds.
    pub open spec fn total_nanos(self) -> int {
        self.secs * 1_000_000_000 + self.nanos
    }
}

/// An archive written at `modified` is stale at `now`: more than
/// `FRESH_SECS` seconds have passed.
pub open spec fn stale(modified: Timestamp, now: Timestamp) -> bool {
    now.total_nanos() > modified.total_nanos() + FRESH_SECS * 1_000_000_000
}

/// Whether an archive written at `modified` has to be asked after again at `now`.
pub fn is_stale(modified: Timestamp, now: Timestamp) -> (r: bool)
    ensures
        r == stale(modified, now),
{
    let written: u128 = modified.secs as u128 * 1_000_000_000 + modified.nanos as u128;
    let limit: u128 = written + FRESH_SECS as u128 * 1_000_000_000;
    let at: u128 = now.secs as u128 * 1_000_000_000 + now.nanos as u128;
    at > limit
}

/// What has to be done next for a snapshot. File and directory names are
/// relative to the root of the cache.
#[derive(Debug, PartialEq, Eq)]
pub enum CacheStep {
    /// Make sure that the root of the cache exists, and look when the
    /// archive file was last written.
    Probe,
    /// Fetch the archive: on condition of the stored token where
    /// `conditional` holds, and without sending a token where it does not.
    Fetch { conditional: bool },
    /// Read the archive file.
    Read,
    /// Look whether the directory `dir` exists.
    Locate { dir: String },
    /// Create `dir`, extract the archive into it and flatten it.
    Extract { dir: String },
    /// The snapshot is in `dir`.
    Done { dir: String },
}

/// What came of a step.
#[derive(Debug, PartialEq, Eq)]
pub enum CacheEvent {
    /// The archive file was last written at `modified`, or is missing; it is `now`.
    Probed { modified: Option<Timestamp>, now: Timestamp },
    /// The fetch went through, with new bytes or without.
    Fetched,
    /// The archive file holds `bytes`.
    Contents { bytes: Vec<u8> },
    /// The directory that was looked for exists, or does not.
    Located { exists: bool },
    /// The archive was extracted and flattened.
    Extracted,
}

/// A step as plain values.
pub enum CacheStepView {
    Probe,
    Fetch { conditional: bool },
    Read,
    Locate { dir: Seq<char> },
    Extract { dir: Seq<char> },
    Done { dir: Seq<char> },
}

/// An event as plain values.
pub enum CacheEventView {
    Probed { modified: Option<Timestamp>, now: Timestamp },
    Fetched,
    Contents { bytes: Seq<u8> },
    Located { exists: bool },
    Extracted,
}

impl View for CacheStep {
    type V = CacheStepView;

    open spec fn view(&self) -> CacheStepView {
        match *self {
            CacheStep::Probe => CacheStepView::Probe,
            CacheStep::Fetch { conditional } => CacheStepView::Fetch { conditional },
            CacheStep::Read => CacheStepView::Read,
            CacheStep::Locate { dir } => CacheStepView::Locate { dir: dir@ },
            CacheStep::Extract { dir } => CacheStepView::Extract { dir: dir@ },
            CacheStep::Done { dir } => CacheStepView::Done { dir: dir@ },
        }
    }
}

impl View for CacheEvent {
    type V = CacheEventView;

    open spec fn view(&self) -> CacheEventView {
        match *self {
            CacheEvent::Probed { modified, now } => CacheEventView::Probed { modified, now },
            CacheEvent::Fetched => CacheEventView::Fetched,
            CacheEvent::Contents { bytes } => CacheEventView::Contents { bytes: bytes@ },
            CacheEvent::Located { exists } => CacheEventView::Located { exists },
            CacheEvent::Extracted => CacheEventView::Extracted,
        }
    }
}

impl RepoDefView {
    /// The name of the archive file.
    pub open spec fn archive_file(self) -> Seq<char> {
        self.cache_file() + ".tar.gz"@
    }

    /// The name of the file that keeps the token of the archive: the
    /// archive's name with its last extension changed.
    pub open spec fn token_file(self) -> Seq<char> {
        self.cache_file() + ".tar.etag"@
    }

    /// The name of the directory for what is extracted from an archive
    /// that holds `bytes`: the key, a hyphen, and the digest of the bytes.
    pub open spec fn extracted_dir(self, bytes: Seq<u8>) -> Seq<char> {
        self.cache_file() + "-"@ + sha512_hex(bytes)
    }

    /// The step that follows `step` when `event` came of it; `None` where
    /// `event` is not what `step` can end in.
    ///
    /// A missing archive is fetched without condition: no token is sent,
    /// even where one was left behind. One that is stale is fetched on
    /// condition of the stored token. One that is fresh is read as it is. The directory is named
    /// after the bytes read, and the archive is extracted only where that
    /// directory is not there yet. Bytes too many to be digested end the
    /// run like an event that does not fit.
    pub open spec fn next_step(self, step: CacheStepView, event: CacheEventView) -> Option<
        CacheStepView,
    > {
        match (step, event) {
            (CacheStepView::Probe, CacheEventView::Probed { modified: None, .. }) => Some(
                CacheStepView::Fetch { conditional: false },
            ),
            (CacheStepView::Probe, CacheEventView::Probed { modified: Some(m), now }) => Some(
                if stale(m, now) {
                    CacheStepView::Fetch { conditional: true }
                } else {
                    CacheStepView::Read
                },
            ),
            (CacheStepView::Fetch { .. }, CacheEventView::Fetched) => Some(CacheStepView::Read),
            (CacheStepView::Read, CacheEventView::Contents { bytes }) => if hashable(bytes) {
                Some(CacheStepView::Locate { dir: self.extracted_dir(bytes) })
            } else {
                None
            },
            (CacheStepView::Locate { dir }, CacheEventView::Located { exists }) => Some(
                if exists {
                    CacheStepView::Done { dir }
                } else {
                    CacheStepView::Extract { dir }
                },
            ),
            (CacheStepView::Extract { dir }, CacheEventView::Extracted) => Some(
                CacheStepView::Done { dir },
            ),
            _ => None,
        }
    }
}

/// Two strings that are equal after the same ending was put to each are equal.
proof fn lemma_same_ending(a: Seq<char>, b: Seq<char>, ending: Seq<char>)
    requires
        a + ending == b + ending,
    ensures
        a == b,
{
    assert((a + ending).len() == a.len() + ending.len());
    assert((b + ending).len() == b.len() + ending.len());
    assert(a.len() == b.len());
    assert forall|i: int| 0 <= i < a.len() implies a[i] == b[i] by {
        assert((a + ending)[i] == a[i]);
        assert((b + ending)[i] == b[i]);
    }
    assert(a =~= b);
}

/// Storage goes by key and content: for the same bytes, two references
/// get the same directory exactly when their keys are the same.
pub proof fn lemma_content_addressing(a: RepoDefView, b: RepoDefView, bytes: Seq<u8>)
    ensures
        a.cache_file() == b.cache_file() <==> a.extracted_dir(bytes) == b.extracted_dir(bytes),
{
    if a.extracted_dir(bytes) == b.extracted_dir(bytes) {
        let ending = "-"@ + sha512_hex(bytes);
        assert(a.extracted_dir(bytes) =~= a.cache_file() + ending);
        assert(b.extracted_dir(bytes) =~= b.cache_file() + ending);
        lemma_same_ending(a.cache_file(), b.cache_file(), ending);
    }
}

/// Resolving a reference again while the archive's bytes are what they
/// were ends in the directory of the first time, and extracts nothing.
/// The directory is named after the reference and the bytes alone. The
/// first time it is not there: the archive is extracted, and the run ends
/// in it. Every time after that it is there, and is the result as it stands.
pub proof fn lemma_resolution_repeats(repo: RepoDefView, bytes: Seq<u8>)
    requires
        hashable(bytes),
    ensures
        repo.next_step(CacheStepView::Read, CacheEventView::Contents { bytes }) == Some(
            CacheStepView::Locate { dir: repo.extracted_dir(bytes) },
        ),
        repo.next_step(
            CacheStepView::Locate { dir: repo.extracted_dir(bytes) },
            CacheEventView::Located { exists: false },
        ) == Some(CacheStepView::Extract { dir: repo.extracted_dir(bytes) }),
        repo.next_step(
            CacheStepView::Extract { dir: repo.extracted_dir(bytes) },
            CacheEventView::Extracted,
        ) == Some(CacheStepView::Done { dir: repo.extracted_dir(bytes) }),
        repo.next_step(
            CacheStepView::Locate { dir: repo.extracted_dir(bytes) },
            CacheEventView::Located { exists: true },
        ) == Some(CacheStepView::Done { dir: repo.extracted_dir(bytes) }),
{
}

/// A missing archive is fetched without condition, whatever the time is;
/// a stale one is fetched on condition.
pub proof fn lemma_missing_archive_is_fetched_unconditionally(
    repo: RepoDefView,
    modified: Timestamp,
    now: Timestamp,
)
    ensures
        repo.next_step(CacheStepView::Probe, CacheEventView::Probed { modified: None, now })
            == Some(CacheStepView::Fetch { conditional: false }),
        stale(modified, now) ==> repo.next_step(
            CacheStepView::Probe,
            CacheEventView::Probed { modified: Some(modified), now },
        ) == Some(CacheStepView::Fetch { conditional: true }),
{
}

/// An archive that was written no more than `FRESH_SECS` seconds ago is
/// read as it is: no fetch follows, with a token or without.
pub proof fn lemma_fresh_archive_is_reused(repo: RepoDefView, modified: Timestamp, now: Timestamp)
    requires
        now.total_nanos() <= modified.total_nanos() + FRESH_SECS * 1_000_000_000,
    ensures
        repo.next_step(
            CacheStepView::Probe,
            CacheEventView::Probed { modified: Some(modified), now },
        ) == Some(CacheStepView::Read),
{
}

/// The extracted tree does not have exactly one entry at its top.
#[derive(Debug, Clone, Copy, PartialEq, Eq, Structural)]
pub struct WrongShape {
    /// How many entries there are.
    pub entries: usize,
}

/// One operation of flattening. The names are relative to the directory
/// that the archive was extracted into.
#[derive(Debug, PartialEq, Eq)]
pub enum FlattenOp {
    /// Move `from` to `to`.
    Rename { from: String, to: String },
    /// Remove the directory `dir`, which is empty by then.
    RemoveDir { dir: String },
}

/// An operation of flattening as plain values.
pub enum FlattenOpView {
    Rename { from: Seq<char>, to: Seq<char> },
    RemoveDir { dir: Seq<char> },
}

impl View for FlattenOp {
    type V = FlattenOpView;

    open spec fn view(&self) -> FlattenOpView {
        match *self {
            FlattenOp::Rename { from, to } => FlattenOpView::Rename { from: from@, to: to@ },
            FlattenOp::RemoveDir { dir } => FlattenOpView::RemoveDir { dir: dir@ },
        }
    }
}

/// The moves that empty the wrapper: each child goes from below the
/// wrapper to the top, under its own name, in the order given.
pub open spec fn flatten_moves(wrapper: Seq<char>, children: Seq<Seq<char>>) -> Seq<
    FlattenOpView,
> {
    children.map_values(
        |c: Seq<char>| FlattenOpView::Rename { from: wrapper + "/"@ + c, to: c },
    )
}

/// Flattening as a whole: the moves that empty the wrapper, and then
/// the removal of the wrapper.
pub open spec fn flatten_plan(wrapper: Seq<char>, children: Seq<Seq<char>>) -> Seq<
    FlattenOpView,
> {
    flatten_moves(wrapper, children).push(FlattenOpView::RemoveDir { dir: wrapper })
}

/// Flattening takes every child out of the wrapper and then the wrapper
/// away: there is one move for each child, from below the wrapper to the
/// child's own name at the top, no move ends below the wrapper, and the
/// last operation, after all the moves, removes the wrapper.
pub proof fn lemma_flatten_hoists(wrapper: Seq<char>, children: Seq<Seq<char>>, i: int)
    requires
        0 <= i < children.len(),
    ensures
        flatten_plan(wrapper, children).len() == children.len() + 1,
        flatten_plan(wrapper, children)[i] == (FlattenOpView::Rename {
            from: wrapper + "/"@ + children[i],
            to: children[i],
        }),
        flatten_plan(wrapper, children).last() == (FlattenOpView::RemoveDir { dir: wrapper }),
{
}

/// The names of `v` as plain values.
pub open spec fn names_view(v: Seq<String>) -> Seq<Seq<char>> {
    v.map_values(|s: String| s@)
}

/// The operations of `v` as plain values.
pub open spec fn ops_view(v: Seq<FlattenOp>) -> Seq<FlattenOpView> {
    v.map_values(|m: FlattenOp| m@)
}

/// The one entry at the top of an extracted tree, which wraps the rest.
/// Any other number of entries is an error.
pub fn wrapper_of(top: &Vec<String>) -> (r: Result<&String, WrongShape>)
    ensures
        match r {
            Ok(w) => top@.len() == 1 && *w == top@[0],
            Err(e) => top@.len() != 1 && e.entries == top@.len(),
        },
{
    if top.len() == 1 {
        Ok(&top[0])
    } else {
        Err(WrongShape { entries: top.len() })
    }
}

/// What flattening does, in order: the moves that hoist the children of
/// `wrapper` to the top, and then the removal of the wrapper.
pub fn flatten(wrapper: &str, children: &Vec<String>) -> (r: Vec<FlattenOp>)
    ensures
        ops_view(r@) == flatten_plan(wrapper@, names_view(children@)),
{
    let mut r: Vec<FlattenOp> = Vec::new();
    let mut i: usize = 0;
    while i < children.len()
        invariant
            i <= children.len(),
            ops_view(r@) == flatten_moves(wrapper@, names_view(children@.take(i as int))),
        decreases children.len() - i,
    {
        let child = &children[i];
        let mut from = String::from_str(wrapper);
        from.append("/");
        from.append(child.as_str());
        let ghost before = r@;
        r.push(FlattenOp::Rename { from, to: child.clone() });
        proof {
            let c = children@[i as int]@;
            let op = FlattenOpView::Rename { from: wrapper@ + "/"@ + c, to: c };
            assert(children@.take(i + 1) =~= children@.take(i as int).push(children@[i as int]));
            assert(names_view(children@.take(i + 1)) =~= names_view(
                children@.take(i as int),
            ).push(c));
            assert(ops_view(r@) =~= ops_view(before).push(op));
            assert(flatten_moves(wrapper@, names_view(children@.take(i + 1))) =~= flatten_moves(
                wrapper@,
                names_view(children@.take(i as int)),
            ).push(op));
        }
        i += 1;
    }
    let ghost moves = r@;
    r.push(FlattenOp::RemoveDir { dir: String::from_str(wrapper) });
    proof {
        assert(children@.take(i as int) =~= children@);
        assert(ops_view(r@) =~= ops_view(moves).push(FlattenOpView::RemoveDir { dir: wrapper@ }));
    }
    r
}

impl TemplateView {
    /// Where bringing the template to this machine starts: a local
    /// directory is there as it is, a snapshot has to be looked for.
    pub open spec fn first_step(self) -> CacheStepView {
        match self {
            TemplateView::Repo { .. } => CacheStepView::Probe,
            TemplateView::Local { path, .. } => CacheStepView::Done { dir: path },
        }
    }
}

impl Template {
    /// The first step of bringing the template to this machine. A
    /// snapshot of a repository goes through the cache. A local directory
    /// is the result as it stands: it is neither cached nor copied.
    pub fn download(&self) -> (r: CacheStep)
        ensures
            r@ == self@.first_step(),
    {
        match self {
            Template::Repo { repo, .. } => repo.download(),
            Template::Local { path, .. } => CacheStep::Done { dir: path.clone() },
        }
    }
}

impl RepoDef {
    /// The name of the archive file below the root of the cache.
    pub fn archive_file(&self) -> (r: String)
        ensures
            r@ == self@.archive_file(),
    {
        let mut r = self.cache_file();
        r.append(".tar.gz");
        r
    }

    /// The name of the token file below the root of the cache.
    pub fn token_file(&self) -> (r: String)
        ensures
            r@ == self@.token_file(),
    {
        let mut r = self.cache_file();
        r.append(".tar.etag");
        r
    }

    /// The name of the directory for what is extracted from `bytes`.
    pub fn extracted_dir(&self, bytes: &[u8]) -> (r: String)
        requires
            hashable(bytes@),
        ensures
            r@ == self@.extracted_dir(bytes@),
    {
        let mut r = self.cache_file();
        r.append("-");
        let digest = hash_buffer(bytes);
        r.append(digest.as_str());
        r
    }

    /// The first step of bringing the snapshot into the cache.
    pub fn download(&self) -> (r: CacheStep)
        ensures
            r@ == CacheStepView::Probe,
    {
        CacheStep::Probe
    }

    /// The step that follows `step`, given what came of it.
    pub fn advance(&self, step: CacheStep, event: CacheEvent) -> (r: Option<CacheStep>)
        ensures
            match r {
                Some(next) => self@.next_step(step@, event@) == Some(next@),
                None => self@.next_step(step@, event@) is None,
            },
    {
        match (step, event) {
            (CacheStep::Probe, CacheEvent::Probed { modified: None, .. }) => Some(
                CacheStep::Fetch { conditional: false },
            ),
            (CacheStep::Probe, CacheEvent::Probed { modified: Some(m), now }) => {
                if is_stale(m, now) {
                    Some(CacheStep::Fetch { conditional: true })
                } else {
                    Some(CacheStep::Read)
                }
            },
            (CacheStep::Fetch { .. }, CacheEvent::Fetched) => Some(CacheStep::Read),
            (CacheStep::Read, CacheEvent::Contents { bytes }) => {
                if is_hashable(bytes.as_slice()) {
                    Some(CacheStep::Locate { dir: self.extracted_dir(bytes.as_slice()) })
                } else {
                    None
                }
            },
            (CacheStep::Locate { dir }, CacheEvent::Located { exists }) => {
                if exists {
                    Some(CacheStep::Done { dir })
                } else {
                    Some(CacheStep::Extract { dir })
                }
            },
            (CacheStep::Extract { dir }, CacheEvent::Extracted) => Some(CacheStep::Done { dir }),
            _ => None,
        }
    }
}

} // verus!
