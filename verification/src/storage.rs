//! The deduplicating content-addressed blob store.
//!
//! A record is committed by writing the incoming bytes to a uniquely named
//! temporary file and then committing it under the record's identifier in
//! one atomic step; a record that was already committed is never rewritten.
//! The store's durable state is modelled by [`StoreModel`]: the committed
//! raw bytes by identifier, and the in-progress temporary files by name.
//! Every mutating method states its effect as a pure function of that
//! model, and the laws at the end of this module (idempotent dedup, abort
//! atomicity, the dedup race, idempotent delete) are proved from those
//! pure functions.

use vstd::prelude::*;

verus! {

use vstd::hash_map::StringHashMap;
use vstd::string::StringExecFns;
use crate::error::{AppError, AppResult};
use crate::id::{spec_content_id, Id};

/// Outcome of one save attempt: either the record was already committed
/// (`Existed`, no bytes written) or the bytes were freshly committed
/// (`New`).
#[derive(Clone, Copy, Debug, PartialEq, Eq, Structural)]
pub enum SavedId {
    Existed,
    New,
}

/// The store's durable state: committed raw payloads by identifier, and
/// in-progress temporary files by file name. A record is visible if and
/// only if it appears in `records`; temporary files are never exposed.
#[verifier::ext_equal]
pub struct StoreModel {
    /// Raw payload bytes of each committed record.
    pub records: Map<Seq<char>, Seq<u8>>,
    /// Bytes written so far to each in-progress temporary file.
    pub tmps: Map<Seq<char>, Seq<u8>>,
}

/// A committed record exists exactly when its identifier is in the model.
pub open spec fn spec_exists(m: StoreModel, id: Seq<char>) -> bool {
    m.records.contains_key(id)
}

/// The name of the temporary file for one save attempt.
pub open spec fn spec_tmp_name(token: Seq<char>) -> Seq<char> {
    token + ".tmp"@
}

/// Opening the temporary file: it appears empty among the in-progress
/// files; no committed record changes.
pub open spec fn spec_begin(m: StoreModel, name: Seq<char>) -> StoreModel {
    StoreModel { records: m.records, tmps: m.tmps.insert(name, Seq::empty()) }
}

/// One copy step: after it, the temporary file holds the first `end` bytes
/// of the source; no committed record changes.
pub open spec fn spec_copy_step(
    m: StoreModel,
    name: Seq<char>,
    bytes: Seq<u8>,
    end: int,
) -> StoreModel {
    StoreModel { records: m.records, tmps: m.tmps.insert(name, bytes.take(end)) }
}

/// Abandoning the attempt: the temporary file is removed; no committed
/// record changes. This is the cleanup that must fire on every failed or
/// cancelled save.
pub open spec fn spec_abort(m: StoreModel, name: Seq<char>) -> StoreModel {
    StoreModel { records: m.records, tmps: m.tmps.remove(name) }
}

/// The atomic commit: in one step, the temporary file disappears and — if
/// no record was committed under `id` in the meantime — the bytes become
/// the committed record. A record that already exists is left exactly as
/// it was and the attempt reports `Existed`.
pub open spec fn spec_commit(m: StoreModel, name: Seq<char>, id: Seq<char>, bytes: Seq<u8>) -> (
    StoreModel,
    SavedId,
) {
    if m.records.contains_key(id) {
        (StoreModel { records: m.records, tmps: m.tmps.remove(name) }, SavedId::Existed)
    } else {
        (
            StoreModel { records: m.records.insert(id, bytes), tmps: m.tmps.remove(name) },
            SavedId::New,
        )
    }
}

/// The net effect of one complete save on the committed records: an
/// already committed record is untouched and reports `Existed`; otherwise
/// the bytes are committed and the attempt reports `New`.
pub open spec fn spec_save(records: Map<Seq<char>, Seq<u8>>, id: Seq<char>, bytes: Seq<u8>) -> (
    Map<Seq<char>, Seq<u8>>,
    SavedId,
) {
    if records.contains_key(id) {
        (records, SavedId::Existed)
    } else {
        (records.insert(id, bytes), SavedId::New)
    }
}

/// Deleting a record removes it; deleting an absent record is a no-op.
pub open spec fn spec_delete(records: Map<Seq<char>, Seq<u8>>, id: Seq<char>) -> Map<
    Seq<char>,
    Seq<u8>,
> {
    records.remove(id)
}

/// Run the copy phase of one save attempt: open the temporary file, then
/// perform the given copy steps, each leaving a prefix of the source in
/// the temporary file.
pub open spec fn spec_copy_run(
    m: StoreModel,
    name: Seq<char>,
    bytes: Seq<u8>,
    ends: Seq<int>,
) -> StoreModel
    decreases ends.len(),
{
    if ends.len() == 0 {
        spec_begin(m, name)
    } else {
        spec_copy_step(spec_copy_run(m, name, bytes, ends.drop_last()), name, bytes, ends.last())
    }
}

/// Atomicity of the save protocol: however far the copy got before the
/// process died, no committed record changed — every record's raw payload
/// is either absent or complete, never partial — no in-progress temporary
/// file is ever visible as a record, and aborting removes the attempt's
/// only trace, restoring the store's state exactly.
pub proof fn lemma_save_atomic(m: StoreModel, name: Seq<char>, bytes: Seq<u8>, ends: Seq<int>)
    requires
        !m.tmps.contains_key(name),
    ensures
        spec_copy_run(m, name, bytes, ends).records == m.records,
        forall|id: Seq<char>|
            spec_exists(spec_copy_run(m, name, bytes, ends), id) == spec_exists(m, id),
        spec_abort(spec_copy_run(m, name, bytes, ends), name) =~= m,
    decreases ends.len(),
{
    if ends.len() == 0 {
        assert(spec_abort(spec_begin(m, name), name).tmps =~= m.tmps);
    } else {
        lemma_save_atomic(m, name, bytes, ends.drop_last());
        let prev = spec_copy_run(m, name, bytes, ends.drop_last());
        assert(spec_abort(spec_copy_step(prev, name, bytes, ends.last()), name).tmps
            =~= spec_abort(prev, name).tmps);
    }
}

/// Idempotent dedup: saving under a fresh identifier commits the bytes
/// and reports `New`; saving again under the same identifier reports
/// `Existed` and leaves the committed records — in particular the stored
/// bytes — exactly as the first save left them, whatever bytes the second
/// attempt carried.
pub proof fn lemma_save_idempotent(
    records: Map<Seq<char>, Seq<u8>>,
    id: Seq<char>,
    bytes: Seq<u8>,
    again: Seq<u8>,
)
    requires
        !records.contains_key(id),
    ensures
        spec_save(records, id, bytes).1 is New,
        spec_save(records, id, bytes).0.contains_key(id),
        spec_save(records, id, bytes).0[id] == bytes,
        spec_save(spec_save(records, id, bytes).0, id, again).1 is Existed,
        spec_save(spec_save(records, id, bytes).0, id, again).0 == spec_save(
            records,
            id,
            bytes,
        ).0,
        spec_save(spec_save(records, id, bytes).0, id, again).0[id] == bytes,
{
}

/// Dedup race: two save attempts for the same identifier have fully
/// copied the same bytes into two distinct temporary files. Whichever of
/// the two commits first wins and reports `New`; the second commit
/// observes the committed record, reports `Existed`, and leaves the
/// winner's bytes untouched. Both temporary files are gone, both attempts
/// observe a committed record afterwards, and the record holds the bytes
/// both attempts carried.
pub proof fn lemma_dedup_race(
    m: StoreModel,
    first: Seq<char>,
    second: Seq<char>,
    id: Seq<char>,
    bytes: Seq<u8>,
)
    requires
        !spec_exists(m, id),
        first != second,
    ensures
        spec_commit(m, first, id, bytes).1 is New,
        spec_commit(spec_commit(m, first, id, bytes).0, second, id, bytes).1 is Existed,
        spec_exists(spec_commit(spec_commit(m, first, id, bytes).0, second, id, bytes).0, id),
        spec_commit(spec_commit(m, first, id, bytes).0, second, id, bytes).0.records[id] == bytes,
        spec_commit(spec_commit(m, first, id, bytes).0, second, id, bytes).0.records
            == spec_commit(m, first, id, bytes).0.records,
        !spec_commit(spec_commit(m, first, id, bytes).0, second, id, bytes).0.tmps.contains_key(
            first,
        ),
        !spec_commit(spec_commit(m, first, id, bytes).0, second, id, bytes).0.tmps.contains_key(
            second,
        ),
{
}

/// Content-level idempotent dedup: byte-identical payloads derive the
/// same content identifier, so saving the same bytes twice in
/// content-derived mode commits once (`New`) and then observes the
/// committed record (`Existed`), leaving the stored bytes untouched.
pub proof fn lemma_content_dedup(records: Map<Seq<char>, Seq<u8>>, bytes: Seq<u8>)
    requires
        !records.contains_key(spec_content_id(bytes)),
    ensures
        spec_save(records, spec_content_id(bytes), bytes).1 is New,
        spec_save(records, spec_content_id(bytes), bytes).0[spec_content_id(bytes)] == bytes,
        spec_save(
            spec_save(records, spec_content_id(bytes), bytes).0,
            spec_content_id(bytes),
            bytes,
        ).1 is Existed,
        spec_save(
            spec_save(records, spec_content_id(bytes), bytes).0,
            spec_content_id(bytes),
            bytes,
        ).0 == spec_save(records, spec_content_id(bytes), bytes).0,
{
    lemma_save_idempotent(records, spec_content_id(bytes), bytes, bytes);
}

/// The committed records left after deleting every listed identifier.
pub open spec fn spec_delete_all(records: Map<Seq<char>, Seq<u8>>, ids: Seq<Seq<char>>) -> Map<
    Seq<char>,
    Seq<u8>,
>
    decreases ids.len(),
{
    if ids.len() == 0 {
        records
    } else {
        spec_delete_all(spec_delete(records, ids.first()), ids.drop_first())
    }
}

/// Idempotent delete: after a delete no committed record exists under the
/// identifier, and a repeat delete is a no-op.
pub proof fn lemma_delete_idempotent(records: Map<Seq<char>, Seq<u8>>, id: Seq<char>)
    ensures
        !spec_delete(records, id).contains_key(id),
        spec_delete(spec_delete(records, id), id) == spec_delete(records, id),
{
    assert(spec_delete(spec_delete(records, id), id) =~= spec_delete(records, id));
}

/// An in-progress save attempt: the temporary file's name and how many
/// source bytes were copied so far. Completing the attempt hands the file
/// to [`LocalStorage::commit_save`]; abandoning it must go through
/// [`LocalStorage::abort_save`] so the temporary file is removed.
pub struct TmpCopy {
    /// Name of the temporary file, `<token>.tmp`.
    pub name: String,
    /// How many bytes of the source were copied so far.
    pub copied: usize,
}

/// The local blob store: a root directory, the mount path under which its
/// records are served, and the store's state.
pub struct LocalStorage {
    dir: String,
    uri_path: String,
    records: StringHashMap<Vec<u8>>,
    tmps: StringHashMap<Vec<u8>>,
}

/// Size of one copy chunk.
pub const CHUNK: usize = 512;

/// Characters that can stand in a URL path without percent-encoding:
/// ASCII letters and digits, the unreserved marks, and the segment
/// separator itself.
pub open spec fn is_url_safe_char(c: char) -> bool {
    ('a' <= c && c <= 'z') || ('A' <= c && c <= 'Z') || ('0' <= c && c <= '9') || c == '-' || c
        == '.' || c == '_' || c == '~' || c == '/'
}

/// A mount path is safe when every character of it is URL-safe.
pub open spec fn is_url_safe(s: Seq<char>) -> bool {
    forall|i: int| 0 <= i < s.len() ==> is_url_safe_char(#[trigger] s[i])
}

/// Copy the first `end` bytes of `source` into a fresh buffer.
fn take_prefix(source: &Vec<u8>, end: usize) -> (r: Vec<u8>)
    requires
        end <= source.len(),
    ensures
        r@ == source@.take(end as int),
{
    let mut out: Vec<u8> = Vec::new();
    let mut i: usize = 0;
    while i < end
        invariant
            i <= end <= source.len(),
            out@ == source@.take(i as int),
        decreases end - i,
    {
        out.push(source[i]);
        proof {
            assert(source@.take(i as int + 1) =~= source@.take(i as int).push(source@[i as int]));
        }
        i = i + 1;
    }
    out
}

impl LocalStorage {
    /// The store's root directory.
    pub closed spec fn spec_dir(&self) -> Seq<char> {
        self.dir@
    }

    /// The mount path under which records are served.
    pub closed spec fn spec_uri_path(&self) -> Seq<char> {
        self.uri_path@
    }

    /// The store's state as a [`StoreModel`].
    pub closed spec fn abs(&self) -> StoreModel {
        StoreModel {
            records: Map::new(
                |k: Seq<char>| self.records@.contains_key(k),
                |k: Seq<char>| self.records@[k]@,
            ),
            tmps: Map::new(
                |k: Seq<char>| self.tmps@.contains_key(k),
                |k: Seq<char>| self.tmps@[k]@,
            ),
        }
    }

    /// A store over the given root directory, serving records under the
    /// given mount path, with nothing committed and nothing in progress.
    pub fn new(dir: String, uri_path: String) -> (r: LocalStorage)
        ensures
            r.spec_dir() == dir@,
            r.spec_uri_path() == uri_path@,
            r.abs().records =~= Map::<Seq<char>, Seq<u8>>::empty(),
            r.abs().tmps =~= Map::<Seq<char>, Seq<u8>>::empty(),
    {
        LocalStorage { dir, uri_path, records: StringHashMap::new(), tmps: StringHashMap::new() }
    }

    /// The directory of one record: `<dir>/<id>`.
    pub open spec fn spec_record_dir(&self, id: Seq<char>) -> Seq<char> {
        self.spec_dir() + "/"@ + id
    }

    /// The path of one record's canonical payload: `<dir>/<id>/raw`.
    pub open spec fn spec_raw_path(&self, id: Seq<char>) -> Seq<char> {
        self.spec_record_dir(id) + "/raw"@
    }

    /// The path of one record's derived artifact: `<dir>/<id>/<rel>`.
    pub open spec fn spec_artifact_path(&self, id: Seq<char>, rel: Seq<char>) -> Seq<char> {
        self.spec_record_dir(id) + "/"@ + rel
    }

    /// The path of the temporary file of one save attempt:
    /// `<dir>/<token>.tmp`, beside the record directories.
    pub open spec fn spec_tmp_path(&self, token: Seq<char>) -> Seq<char> {
        self.spec_dir() + "/"@ + spec_tmp_name(token)
    }

    /// Filesystem directory of one record.
    pub fn path(&self, id: &Id) -> (r: String)
        ensures
            r@ == self.spec_record_dir(id@),
    {
        let mut out = self.dir.clone();
        out.append("/");
        out.append(id.as_str());
        out
    }

    /// True iff a committed record exists under the identifier. An
    /// in-progress temporary file never makes this true.
    pub fn is_committed(&self, id: &Id) -> (r: bool)
        ensures
            r == spec_exists(self.abs(), id@),
    {
        self.records.contains_key(id.as_str())
    }

    /// Path of the record's canonical payload, or `MaterialNotFound` if no
    /// committed record exists under the identifier.
    pub fn raw_file(&self, id: &Id) -> (r: AppResult<String>)
        ensures
            spec_exists(self.abs(), id@) ==> (r matches Ok(p) && p@ == self.spec_raw_path(id@)),
            !spec_exists(self.abs(), id@) ==> (r matches Err(AppError::MaterialNotFound(s)) && s@
                == id@),
    {
        if !self.is_committed(id) {
            return Err(AppError::MaterialNotFound(id.0.clone()));
        }
        let mut out = self.path(id);
        out.append("/raw");
        Ok(out)
    }

    /// Path of a derived artifact inside the record's own subtree, or
    /// `MaterialNotFound` if no committed record exists. The artifact path
    /// is joined under the record directory, so it cannot name a file
    /// outside the record's subtree by way of the store's layout.
    pub fn assert_file(&self, id: &Id, rel: &str) -> (r: AppResult<String>)
        ensures
            spec_exists(self.abs(), id@) ==> (r matches Ok(p) && p@ == self.spec_artifact_path(
                id@,
                rel@,
            )),
            !spec_exists(self.abs(), id@) ==> (r matches Err(AppError::MaterialNotFound(s)) && s@
                == id@),
    {
        if !self.is_committed(id) {
            return Err(AppError::MaterialNotFound(id.0.clone()));
        }
        let mut out = self.path(id);
        out.append("/");
        out.append(rel);
        Ok(out)
    }

    /// The public URL of one artifact of one record:
    /// `{base}/{mount-path}/{identifier}/{relative-artifact-path}`.
    pub open spec fn spec_url(&self, base: Seq<char>, id: Seq<char>, rel: Seq<char>) -> Seq<char> {
        base + "/"@ + self.spec_uri_path() + "/"@ + id + "/"@ + rel
    }

    /// Public URL of one artifact of one record:
    /// `{base}/{mount-path}/{identifier}/{relative-artifact-path}`.
    /// Fails if the configured mount path would need percent-encoding.
    pub fn url(&self, base_url: &str, id: &Id, rel: &str) -> (r: AppResult<String>)
        ensures
            is_url_safe(self.spec_uri_path()) ==> (r matches Ok(u) && u@ == self.spec_url(
                base_url@,
                id@,
                rel@,
            )),
            !is_url_safe(self.spec_uri_path()) ==> (r matches Err(AppError::InvalidUriPath(p)) && p@
                == self.spec_uri_path()),
    {
        let n = self.uri_path.as_str().unicode_len();
        let mut i: usize = 0;
        while i < n
            invariant
                i <= n,
                n == self.spec_uri_path().len(),
                forall|j: int| 0 <= j < i ==> is_url_safe_char(#[trigger] self.spec_uri_path()[j]),
            decreases n - i,
        {
            let c = self.uri_path.as_str().get_char(i);
            let code = c as u32;
            let safe = (97 <= code && code <= 122) || (65 <= code && code <= 90) || (48 <= code
                && code <= 57) || code == 45 || code == 46 || code == 95 || code == 126 || code
                == 47;
            if !safe {
                proof {
                    assert(!is_url_safe_char(self.spec_uri_path()[i as int]));
                }
                return Err(AppError::InvalidUriPath(self.uri_path.clone()));
            }
            i = i + 1;
        }
        let mut out = String::from_str(base_url);
        out.append("/");
        out.append(self.uri_path.as_str());
        out.append("/");
        out.append(id.as_str());
        out.append("/");
        out.append(rel);
        Ok(out)
    }

    /// Open the temporary file of a fresh save attempt, empty.
    pub fn begin_save(&mut self, token: String) -> (job: TmpCopy)
        ensures
            final(self).abs() == spec_begin(old(self).abs(), spec_tmp_name(token@)),
            final(self).spec_dir() == old(self).spec_dir(),
            final(self).spec_uri_path() == old(self).spec_uri_path(),
            job.name@ == spec_tmp_name(token@),
            job.copied == 0,
    {
        let name = token.concat(".tmp");
        self.tmps.insert(name.clone(), Vec::new());
        proof {
            assert(self.abs().records =~= old(self).abs().records);
            assert(self.abs().tmps =~= old(self).abs().tmps.insert(
                spec_tmp_name(token@),
                Seq::empty(),
            ));
            assert(self.abs() =~= spec_begin(old(self).abs(), spec_tmp_name(token@)));
        }
        TmpCopy { name, copied: 0 }
    }

    /// Copy the next chunk (at most [`CHUNK`] bytes) of the source into the
    /// temporary file. Committed records are untouched.
    pub fn copy_chunk(&mut self, job: &mut TmpCopy, source: &Vec<u8>)
        requires
            old(job).copied < source.len(),
        ensures
            final(job).name@ == old(job).name@,
            final(job).copied == if source@.len() - old(job).copied > CHUNK {
                old(job).copied + CHUNK
            } else {
                source@.len() as int
            },
            final(self).abs() == spec_copy_step(
                old(self).abs(),
                old(job).name@,
                source@,
                final(job).copied as int,
            ),
            final(self).spec_dir() == old(self).spec_dir(),
            final(self).spec_uri_path() == old(self).spec_uri_path(),
    {
        let end = if source.len() - job.copied > CHUNK {
            job.copied + CHUNK
        } else {
            source.len()
        };
        let prefix = take_prefix(source, end);
        self.tmps.insert(job.name.clone(), prefix);
        job.copied = end;
        proof {
            assert(self.abs().records =~= old(self).abs().records);
            assert(self.abs().tmps =~= old(self).abs().tmps.insert(
                old(job).name@,
                source@.take(end as int),
            ));
            assert(self.abs() =~= spec_copy_step(
                old(self).abs(),
                old(job).name@,
                source@,
                end as int,
            ));
        }
    }

    /// Abandon a save attempt: the temporary file is removed, committed
    /// records are untouched. This cleanup runs on every failed save.
    pub fn abort_save(&mut self, job: TmpCopy)
        ensures
            final(self).abs() == spec_abort(old(self).abs(), job.name@),
            final(self).spec_dir() == old(self).spec_dir(),
            final(self).spec_uri_path() == old(self).spec_uri_path(),
    {
        self.tmps.remove(job.name.as_str());
        proof {
            assert(self.abs().records =~= old(self).abs().records);
            assert(self.abs().tmps =~= old(self).abs().tmps.remove(job.name@));
            assert(self.abs() =~= spec_abort(old(self).abs(), job.name@));
        }
    }

    /// Atomically commit a completely copied temporary file as the record's
    /// canonical payload. If a record was committed under the identifier in
    /// the meantime, the temporary file is discarded, the existing bytes
    /// are left untouched, and the attempt reports `Existed`.
    pub fn commit_save(&mut self, job: TmpCopy, id: &Id, source: &Vec<u8>) -> (r: SavedId)
        requires
            job.copied == source.len(),
        ensures
            final(self).abs() == spec_commit(old(self).abs(), job.name@, id@, source@).0,
            r == spec_commit(old(self).abs(), job.name@, id@, source@).1,
            final(self).spec_dir() == old(self).spec_dir(),
            final(self).spec_uri_path() == old(self).spec_uri_path(),
    {
        let committed = self.records.contains_key(id.as_str());
        self.tmps.remove(job.name.as_str());
        if committed {
            proof {
                assert(self.abs().records =~= old(self).abs().records);
                assert(self.abs().tmps =~= old(self).abs().tmps.remove(job.name@));
                assert(self.abs() =~= spec_commit(old(self).abs(), job.name@, id@, source@).0);
            }
            SavedId::Existed
        } else {
            let raw = take_prefix(source, source.len());
            self.records.insert(id.0.clone(), raw);
            proof {
                assert(source@.take(source@.len() as int) =~= source@);
                assert(self.abs().records =~= old(self).abs().records.insert(id@, source@));
                assert(self.abs().tmps =~= old(self).abs().tmps.remove(job.name@));
                assert(self.abs() =~= spec_commit(old(self).abs(), job.name@, id@, source@).0);
            }
            SavedId::New
        }
    }

    /// Save the source bytes under the identifier. A record that is
    /// already committed is never rewritten: the attempt reports `Existed`
    /// and the store is unchanged. Otherwise the bytes are buffered to a
    /// uniquely named temporary file in fixed-size chunks and committed
    /// atomically, and the attempt reports `New`. The temporary file is
    /// gone either way.
    pub fn save(&mut self, id: &Id, source: &Vec<u8>) -> (r: SavedId)
        ensures
            final(self).abs().records == spec_save(old(self).abs().records, id@, source@).0,
            r == spec_save(old(self).abs().records, id@, source@).1,
            final(self).abs().tmps =~= old(self).abs().tmps || (exists|t: Seq<char>|
                final(self).abs().tmps =~= old(self).abs().tmps.remove(t)),
            final(self).spec_dir() == old(self).spec_dir(),
            final(self).spec_uri_path() == old(self).spec_uri_path(),
    {
        if self.is_committed(id) {
            return SavedId::Existed;
        }
        let token = Id::new_uuid();
        let ghost tname = spec_tmp_name(token@);
        let mut job = self.begin_save(token.0);
        proof {
            assert(source@.take(0) =~= Seq::<u8>::empty());
        }
        while job.copied < source.len()
            invariant
                job.copied <= source.len(),
                job.name@ == tname,
                self.abs().records == old(self).abs().records,
                self.abs().tmps == old(self).abs().tmps.insert(
                    tname,
                    source@.take(job.copied as int),
                ),
                self.spec_dir() == old(self).spec_dir(),
                self.spec_uri_path() == old(self).spec_uri_path(),
            decreases source.len() - job.copied,
        {
            self.copy_chunk(&mut job, source);
            proof {
                assert(self.abs().tmps =~= old(self).abs().tmps.insert(
                    tname,
                    source@.take(job.copied as int),
                ));
            }
        }
        proof {
            assert(source@.take(job.copied as int) =~= source@);
        }
        let r = self.commit_save(job, id, source);
        proof {
            assert(self.abs().records =~= old(self).abs().records.insert(id@, source@));
            assert(self.abs().tmps =~= old(self).abs().tmps.remove(tname));
        }
        r
    }

    /// Save the bytes in content-derived mode: the identifier is not
    /// known until the payload has been read, so it is computed as the
    /// payload's content identifier and the same atomic protocol runs
    /// keyed on it. Byte-identical payloads map to the same identifier,
    /// so re-uploading stored content reports `Existed` without
    /// rewriting anything.
    pub fn save_content(&mut self, source: &Vec<u8>) -> (r: (Id, SavedId))
        ensures
            r.0@ == spec_content_id(source@),
            final(self).abs().records == spec_save(
                old(self).abs().records,
                spec_content_id(source@),
                source@,
            ).0,
            r.1 == spec_save(old(self).abs().records, spec_content_id(source@), source@).1,
            final(self).abs().tmps =~= old(self).abs().tmps || (exists|t: Seq<char>|
                final(self).abs().tmps =~= old(self).abs().tmps.remove(t)),
            final(self).spec_dir() == old(self).spec_dir(),
            final(self).spec_uri_path() == old(self).spec_uri_path(),
    {
        let id = Id::from_content(source);
        let outcome = self.save(&id, source);
        (id, outcome)
    }

    /// Remove the record committed under the identifier, if any. A missing
    /// record is not an error: the store is simply unchanged.
    pub fn delete(&mut self, id: &Id)
        ensures
            final(self).abs().records == spec_delete(old(self).abs().records, id@),
            final(self).abs().tmps == old(self).abs().tmps,
            final(self).spec_dir() == old(self).spec_dir(),
            final(self).spec_uri_path() == old(self).spec_uri_path(),
    {
        self.records.remove(id.as_str());
        proof {
            assert(self.abs().records =~= old(self).abs().records.remove(id@));
            assert(self.abs().tmps =~= old(self).abs().tmps);
        }
    }

    /// The committed raw bytes of one record, for callers that read the
    /// payload back.
    pub fn raw_bytes(&self, id: &Id) -> (r: Option<&Vec<u8>>)
        ensures
            spec_exists(self.abs(), id@) ==> (r matches Some(b) && b@ == self.abs().records[id@]),
            !spec_exists(self.abs(), id@) ==> r is None,
    {
        self.records.get(id.as_str())
    }

    /// A temporary file's path never coincides with a record's raw path:
    /// the one ends in `.tmp`, the other in `/raw`. This is why an
    /// in-progress save, which only ever writes its own temporary file
    /// before the atomic commit, can never be observed through a
    /// committed record's payload path.
    pub proof fn lemma_tmp_path_is_not_raw_path(&self, token: Seq<char>, id: Seq<char>)
        ensures
            self.spec_tmp_path(token) != self.spec_raw_path(id),
    {
        reveal_strlit(".tmp");
        reveal_strlit("/raw");
        let t = self.spec_tmp_path(token);
        let r = self.spec_raw_path(id);
        assert(t[t.len() - 1] == ".tmp"@[3]);
        assert(r[r.len() - 1] == "/raw"@[3]);
    }
}

} // verus!
