//! File references and the plans for turning them into bytes or a local path.
//!
//! A `FileMeta` names a blob held by the external storage service; a `File` is
//! the resolved record for such a blob (its path on the service plus its
//! declared size). The service serves two kinds of backend: a *local* one,
//! whose resolved path is an absolute path on this machine, and a *remote*
//! one, whose path must be streamed. The decision logic for both retrieval
//! operations lives here as verified plan functions; the I/O that carries a
//! plan out is left to the unverified shell around this library.

use vstd::prelude::*;

verus! {

/// An opaque identifier plus size hint naming a blob held by the external
/// file-storage service; it does not itself contain bytes.
pub struct FileMeta {
    pub id: String,
    pub size: u64,
}

/// Mathematical model of a `FileMeta`.
pub struct FileMetaV {
    pub id: Seq<char>,
    pub size: u64,
}

impl View for FileMeta {
    type V = FileMetaV;

    open spec fn view(&self) -> FileMetaV {
        FileMetaV { id: self.id@, size: self.size }
    }
}

impl Clone for FileMeta {
    fn clone(&self) -> (r: Self)
        ensures
            r@ == self@,
    {
        FileMeta { id: self.id.clone(), size: self.size }
    }
}

/// A resolved file record: the reference it came from together with the path
/// under which the storage service serves the blob.
pub struct File {
    pub meta: FileMeta,
    pub path: String,
}

/// Mathematical model of a resolved `File` record.
pub struct FileV {
    pub meta: FileMetaV,
    pub path: Seq<char>,
}

impl View for File {
    type V = FileV;

    open spec fn view(&self) -> FileV {
        FileV { meta: self.meta@, path: self.path@ }
    }
}

/// A resolved path names a blob on this machine exactly when it is absolute,
/// which on this platform means it begins with the root separator.
pub open spec fn is_local_path(p: Seq<char>) -> bool {
    p.len() > 0 && p[0] == '/'
}

pub trait FileStuff {
    spec fn is_local_spec(&self) -> bool;

    /// Whether the resolved record points at a file on this machine rather
    /// than one that must be streamed from the remote service.
    fn is_local(&self) -> (r: bool)
        ensures
            r == self.is_local_spec(),
    ;
}

impl FileStuff for File {
    open spec fn is_local_spec(&self) -> bool {
        is_local_path(self.path@)
    }

    fn is_local(&self) -> (r: bool) {
        let s: &str = self.path.as_str();
        if s.unicode_len() == 0 {
            false
        } else {
            s.get_char(0) == '/'
        }
    }
}

/// How the bytes behind a resolved record reach an in-memory buffer: read the
/// file at the path directly (local backend), or stream the path's content
/// chunk by chunk from the remote service.
pub enum FetchPlan {
    ReadLocal { path: String },
    StreamRemote { path: String },
}

/// Mathematical model of a `FetchPlan`.
pub enum FetchPlanV {
    ReadLocal { path: Seq<char> },
    StreamRemote { path: Seq<char> },
}

impl View for FetchPlan {
    type V = FetchPlanV;

    open spec fn view(&self) -> FetchPlanV {
        match self {
            FetchPlan::ReadLocal { path } => FetchPlanV::ReadLocal { path: path@ },
            FetchPlan::StreamRemote { path } => FetchPlanV::StreamRemote { path: path@ },
        }
    }
}

/// How a resolved record becomes a usable filesystem path: hand back the
/// resolved path itself (local backend; the storage service keeps owning the
/// file), or stream the content into a fresh temporary file whose handle the
/// caller must keep alive while the path is read.
pub enum MaterializePlan {
    UseLocalPath { path: String },
    DownloadToTemp { path: String },
}

/// Mathematical model of a `MaterializePlan`.
pub enum MaterializePlanV {
    UseLocalPath { path: Seq<char> },
    DownloadToTemp { path: Seq<char> },
}

impl View for MaterializePlan {
    type V = MaterializePlanV;

    open spec fn view(&self) -> MaterializePlanV {
        match self {
            MaterializePlan::UseLocalPath { path } => (MaterializePlanV::UseLocalPath {
                path: path@,
            }),
            MaterializePlan::DownloadToTemp { path } => (MaterializePlanV::DownloadToTemp {
                path: path@,
            }),
        }
    }
}

/// The plan a buffer download follows: local records are read, remote ones
/// streamed, always at the record's own resolved path.
pub open spec fn fetch_plan_of(f: FileV) -> FetchPlanV {
    if is_local_path(f.path) {
        FetchPlanV::ReadLocal { path: f.path }
    } else {
        FetchPlanV::StreamRemote { path: f.path }
    }
}

/// The plan a materialization follows: a local record's path is handed back
/// as it stands, a remote one is downloaded into a fresh temporary file.
pub open spec fn materialize_plan_of(f: FileV) -> MaterializePlanV {
    if is_local_path(f.path) {
        MaterializePlanV::UseLocalPath { path: f.path }
    } else {
        MaterializePlanV::DownloadToTemp { path: f.path }
    }
}

impl File {
    /// Decide how the bytes behind this record reach a buffer.
    pub fn fetch_plan(&self) -> (r: FetchPlan)
        ensures
            r@ == fetch_plan_of(self@),
    {
        if self.is_local() {
            FetchPlan::ReadLocal { path: self.path.clone() }
        } else {
            FetchPlan::StreamRemote { path: self.path.clone() }
        }
    }

    /// Decide how this record becomes a usable filesystem path.
    pub fn materialize_plan(&self) -> (r: MaterializePlan)
        ensures
            r@ == materialize_plan_of(self@),
    {
        if self.is_local() {
            MaterializePlan::UseLocalPath { path: self.path.clone() }
        } else {
            MaterializePlan::DownloadToTemp { path: self.path.clone() }
        }
    }
}

/// Law: for a locally resolved record, both retrieval operations name the very
/// path of the record, so the buffer read and the materialized path visit the
/// same file and yield byte-identical content.
pub proof fn lemma_local_round_trip(f: FileV)
    requires
        is_local_path(f.path),
    ensures
        fetch_plan_of(f) == (FetchPlanV::ReadLocal { path: f.path }),
        materialize_plan_of(f) == (MaterializePlanV::UseLocalPath { path: f.path }),
{
}

/// Law: for a remotely resolved record, both retrieval operations stream the
/// record's own resolved path; materialization puts the stream into a fresh
/// temporary file rather than handing the path back.
pub proof fn lemma_remote_plans(f: FileV)
    requires
        !is_local_path(f.path),
    ensures
        fetch_plan_of(f) == (FetchPlanV::StreamRemote { path: f.path }),
        materialize_plan_of(f) == (MaterializePlanV::DownloadToTemp { path: f.path }),
{
}

/// The bytes a finite chunk stream amounts to: every chunk, in arrival order.
pub open spec fn concat_chunks(chunks: Seq<Seq<u8>>) -> Seq<u8>
    decreases chunks.len(),
{
    if chunks.len() == 0 {
        Seq::empty()
    } else {
        concat_chunks(chunks.drop_last()) + chunks.last()
    }
}

/// The models of a sequence of chunks.
pub open spec fn chunk_views(cs: Seq<Vec<u8>>) -> Seq<Seq<u8>> {
    cs.map_values(|c: Vec<u8>| c@)
}

/// Law: receiving one more chunk extends the assembled bytes by exactly that
/// chunk, at the end; so appending chunks one by one as they arrive yields
/// the concatenation of the whole stream.
pub proof fn lemma_concat_chunks_push(chunks: Seq<Seq<u8>>, c: Seq<u8>)
    ensures
        concat_chunks(chunks.push(c)) == concat_chunks(chunks) + c,
{
    assert(chunks.push(c).drop_last() =~= chunks);
    assert(chunks.push(c).last() == c);
}

/// Append one received chunk to the output buffer, in arrival order.
pub fn append_chunk(to: &mut Vec<u8>, chunk: &Vec<u8>)
    ensures
        final(to)@ == old(to)@ + chunk@,
{
    proof {
        assert(old(to)@ + chunk@.take(0) =~= old(to)@);
    }
    let mut j: usize = 0;
    while j < chunk.len()
        invariant
            j <= chunk@.len(),
            to@ == old(to)@ + chunk@.take(j as int),
        decreases chunk@.len() - j,
    {
        to.push(chunk[j]);
        proof {
            assert(to@ =~= old(to)@ + chunk@.take(j as int + 1));
        }
        j = j + 1;
    }
    proof {
        assert(old(to)@ + chunk@.take(chunk@.len() as int) =~= old(to)@ + chunk@);
    }
}

/// Assemble a whole buffer from the chunks of a finished stream: the result
/// is the concatenation of every chunk in arrival order.
pub fn assemble_chunks(chunks: &Vec<Vec<u8>>) -> (r: Vec<u8>)
    ensures
        r@ == concat_chunks(chunk_views(chunks@)),
{
    let mut r: Vec<u8> = Vec::new();
    let mut i: usize = 0;
    while i < chunks.len()
        invariant
            i <= chunks@.len(),
            r@ == concat_chunks(chunk_views(chunks@).take(i as int)),
        decreases chunks@.len() - i,
    {
        append_chunk(&mut r, &chunks[i]);
        proof {
            let cv = chunk_views(chunks@);
            assert(cv.take(i as int).push(cv[i as int]) =~= cv.take(i as int + 1));
            lemma_concat_chunks_push(cv.take(i as int), cv[i as int]);
        }
        i = i + 1;
    }
    proof {
        assert(chunk_views(chunks@).take(chunks@.len() as int) =~= chunk_views(chunks@));
    }
    r
}

} // verus!

