//! Ingestion stream writer.
//!
//! Consumes an uploaded file part as a sequence of byte chunks and
//! copies it, chunk by chunk and in arrival order, into a freshly
//! created file with a unique name. Only one chunk is held at a time;
//! the writer itself keeps nothing but the open file and its path, so
//! memory use is bounded by the chunk size regardless of the part's
//! length.

use vstd::prelude::*;
use vstd::string::StringExecFns;

use crate::storage;

verus! {

/// Failure of the ingestion stream writer. Both variants carry the
/// path of the stored file they concern and the underlying I/O cause.
#[derive(Debug)]
pub enum IngestError {
    /// The stored file could not be created.
    CreateFailed { path: String, cause: String },
    /// A chunk could not be written to the stored file.
    WriteFailed { path: String, cause: String },
}

impl IngestError {
    /// The path of the stored file the failure concerns.
    pub open spec fn path_spec(&self) -> Seq<char> {
        match self {
            IngestError::CreateFailed { path, .. } => path@,
            IngestError::WriteFailed { path, .. } => path@,
        }
    }

    pub fn path(&self) -> (p: &String)
        ensures
            p@ == self.path_spec(),
    {
        match self {
            IngestError::CreateFailed { path, .. } => path,
            IngestError::WriteFailed { path, .. } => path,
        }
    }

    /// A readable report of the failure: the stage, the path and the
    /// cause.
    pub fn message(&self) -> (m: String)
        ensures
            self matches IngestError::CreateFailed { path, cause } ==> m@ == "unable to create "@
                + path@ + ": "@ + cause@,
            self matches IngestError::WriteFailed { path, cause } ==> m@ == "unable to write "@
                + path@ + ": "@ + cause@,
    {
        match self {
            IngestError::CreateFailed { path, cause } => {
                let mut m = "unable to create ".to_owned();
                m.append(path.as_str());
                m.append(": ");
                m.append(cause.as_str());
                m
            },
            IngestError::WriteFailed { path, cause } => {
                let mut m = "unable to write ".to_owned();
                m.append(path.as_str());
                m.append(": ");
                m.append(cause.as_str());
                m
            },
        }
    }
}

/// The name under which an uploaded part is stored: the identifier
/// with the fixed `.png` extension appended (a naming convenience of
/// the service, not a claim about the content).
pub fn stored_file_name(id: &str) -> (name: String)
    ensures
        name@ == id@ + ".png"@,
{
    let mut name = id.to_owned();
    name.append(".png");
    name
}

/// A fresh stored-file name: a newly generated collision-resistant
/// 128-bit identifier with the fixed extension appended.
pub fn fresh_stored_name() -> (name: String)
    ensures
        name@.len() == 40,
        name@.subrange(36, 40) == ".png"@,
{
    let id = storage::fresh_id();
    let name = stored_file_name(id.as_str());
    proof {
        reveal_strlit(".png");
        assert(name@.subrange(36, 40) =~= ".png"@);
    }
    name
}

/// Law: the stored-file name derivation is injective — appending one
/// fixed extension to two distinct identifiers yields two distinct
/// paths. Uniqueness of the generated identifiers therefore carries
/// over to the stored files.
pub proof fn lemma_distinct_ids_distinct_names(a: Seq<char>, b: Seq<char>, ext: Seq<char>)
    requires
        a != b,
    ensures
        a + ext != b + ext,
{
    if a + ext == b + ext {
        assert((a + ext).len() == (b + ext).len());
        assert(a.len() == b.len());
        assert forall|i: int| 0 <= i < a.len() implies a[i] == b[i] by {
            assert((a + ext)[i] == a[i]);
            assert((b + ext)[i] == b[i]);
        }
        assert(a =~= b);
    }
}

/// Streams one uploaded part into its stored file.
///
/// The ghost state records the chunks accepted so far; the bytes of
/// the stored file are their concatenation, so the file is a byte-exact
/// copy of the part.
pub struct PartWriter {
    file: fs_err::File,
    path: String,
    chunks: Ghost<Seq<Seq<u8>>>,
}

impl PartWriter {
    /// The chunks accepted so far, in arrival order.
    pub closed spec fn chunks_view(&self) -> Seq<Seq<u8>> {
        self.chunks@
    }

    /// The path of the stored file.
    pub closed spec fn path_view(&self) -> Seq<char> {
        self.path@
    }

    /// The bytes written to the stored file: the accepted chunks
    /// concatenated in arrival order.
    pub open spec fn written_bytes(&self) -> Seq<u8> {
        self.chunks_view().flatten()
    }

    /// Creates the stored file for one part under the name derived
    /// from the given identifier. The file is created exclusively: a
    /// path collision fails like any other creation failure.
    pub fn create(id: &str) -> (r: Result<PartWriter, IngestError>)
        ensures
            r matches Ok(w) ==> w.path_view() == id@ + ".png"@ && w.chunks_view() === Seq::empty(),
            r matches Err(e) ==> e matches IngestError::CreateFailed { path, .. } && path@ == id@
                + ".png"@,
    {
        let name = stored_file_name(id);
        match storage::create_new_file(name.as_str()) {
            Ok(file) => Ok(PartWriter { file, path: name, chunks: Ghost(Seq::empty()) }),
            Err(cause) => Err(IngestError::CreateFailed { path: name, cause }),
        }
    }

    /// Creates the stored file for one part under a freshly generated
    /// collision-resistant identifier.
    pub fn open_fresh() -> (r: Result<PartWriter, IngestError>)
        ensures
            r matches Ok(w) ==> w.chunks_view() === Seq::empty() && w.path_view().len() == 40
                && w.path_view().subrange(36, 40) == ".png"@,
            r matches Err(e) ==> e is CreateFailed,
    {
        let id = storage::fresh_id();
        let r = Self::create(id.as_str());
        proof {
            reveal_strlit(".png");
            if let Ok(w) = &r {
                assert(w.path_view().subrange(36, 40) =~= ".png"@);
            }
        }
        r
    }

    /// Appends one chunk of the part to the stored file. On success
    /// the file's bytes are extended by exactly this chunk; on failure
    /// nothing more is recorded and the caller learns the path (a
    /// partially written file may remain for external cleanup).
    pub fn append_chunk(&mut self, chunk: &Vec<u8>) -> (r: Result<(), IngestError>)
        ensures
            final(self).path_view() == old(self).path_view(),
            r is Ok ==> final(self).chunks_view() == old(self).chunks_view().push(chunk@)
                && final(self).written_bytes() == old(self).written_bytes() + chunk@,
            r matches Err(e) ==> e matches IngestError::WriteFailed { path, .. } && path@ == old(
                self,
            ).path_view() && final(self).chunks_view() == old(self).chunks_view(),
    {
        match storage::append_all(&mut self.file, chunk) {
            Ok(()) => {
                let ghost prior = self.chunks@;
                self.chunks = Ghost(prior.push(chunk@));
                proof {
                    prior.lemma_flatten_push(chunk@);
                }
                Ok(())
            },
            Err(cause) => Err(IngestError::WriteFailed { path: self.path.clone(), cause }),
        }
    }

    /// Closes the stored file (all chunks written) and yields its path.
    pub fn finish(self) -> (path: String)
        ensures
            path@ == self.path_view(),
    {
        let PartWriter { file: _file, path, chunks: _ } = self;
        path
    }
}

/// Law: ingestion is a pure copy. A writer starts with no bytes, and
/// accepting a chunk extends the stored bytes by exactly that chunk,
/// so after any run the stored file holds the concatenation of the
/// uploaded chunks — the same length and the same bytes as the upload.
pub proof fn lemma_ingest_is_pure_copy(chunks: Seq<Seq<u8>>, chunk: Seq<u8>)
    ensures
        Seq::<Seq<u8>>::empty().flatten() === Seq::empty(),
        chunks.push(chunk).flatten() == chunks.flatten() + chunk,
        chunks.push(chunk).flatten().len() == chunks.flatten().len() + chunk.len(),
{
    chunks.lemma_flatten_push(chunk);
}

/// Whether every part of an upload was stored successfully.
pub open spec fn all_parts_ok(results: Seq<Result<String, IngestError>>) -> bool {
    forall|i: int| 0 <= i < results.len() ==> results[i] is Ok
}

/// The HTTP outcome of one upload request: 200 exactly when every part
/// was ingested, 500 as soon as any part failed.
pub fn upload_status(results: &Vec<Result<String, IngestError>>) -> (code: u16)
    ensures
        code == 200 || code == 500,
        (code == 200) <==> all_parts_ok(results@),
{
    let n = results.len();
    let mut i: usize = 0;
    while i < n
        invariant
            i <= n,
            n == results@.len(),
            forall|j: int| 0 <= j < i ==> results@[j] is Ok,
        decreases n - i,
    {
        if results[i].is_err() {
            assert(!(results@[i as int] is Ok));
            return 500;
        }
        i += 1;
    }
    200
}

} // verus!
