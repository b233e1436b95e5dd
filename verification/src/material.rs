//! Material metadata and the read-side views handed to callers.
//!
//! A metadata row is created only after every derived artifact of a *new*
//! record was produced; the row itself is persisted by an external
//! collaborator. This module builds the row, discriminates the media
//! types, and turns a row plus the store's configuration into the URL
//! views that detail and listing calls return.

use vstd::prelude::*;

verus! {

use crate::error::{AppError, AppResult};
use crate::id::Id;
use crate::pipeline::{init_model, Ingest};
use crate::storage::{is_url_safe, spec_delete, spec_delete_all, spec_exists, spec_save, LocalStorage, SavedId};
use crate::id::is_generated_id;

/// Media-type discriminator of a video row.
pub const TYPE_VIDEO: u16 = 1;

/// Media-type discriminator of an image row.
pub const TYPE_IMAGE: u16 = 2;

/// Lifecycle state of a live row.
pub const STATE_OK: u16 = 0;

/// The media type of a material.
#[derive(Clone, Copy, Debug, PartialEq, Eq, Structural)]
pub enum MaterialType {
    Video,
    Image,
}

impl MaterialType {
    /// The row discriminator of this media type.
    pub fn value(&self) -> (r: u16)
        ensures
            self is Video ==> r == TYPE_VIDEO,
            self is Image ==> r == TYPE_IMAGE,
    {
        match self {
            MaterialType::Video => TYPE_VIDEO,
            MaterialType::Image => TYPE_IMAGE,
        }
    }
}

/// One metadata row, as handed to the metadata collaborator.
#[derive(Debug)]
pub struct Material {
    /// Identifier of the stored record the row references.
    pub id: String,
    /// Display name.
    pub name: Option<String>,
    /// Name the file was uploaded under.
    pub raw_name: Option<String>,
    /// Optional free-text description.
    pub description: Option<String>,
    /// Identifier of the creating user.
    pub creator: String,
    /// Lifecycle state; `STATE_OK` for a live row.
    pub state: i64,
    /// Media-type discriminator; `TYPE_VIDEO` or `TYPE_IMAGE`.
    pub media_type: i64,
    /// Creation instant, in microseconds since the Unix epoch.
    pub created_at: i64,
}

/// Relies on `chrono::Utc::now` (with `timestamp_micros`): the current
/// wall-clock instant as microseconds since the Unix epoch. The value
/// depends on the clock, so nothing is promised of it.
#[verifier::external_body]
fn now_timestamp_micros() -> i64 {
    chrono::Utc::now().timestamp_micros()
}

/// The view of an optional string: its characters, or empty when absent.
pub open spec fn opt_str(o: Option<String>) -> Seq<char> {
    match o {
        Option::Some(n) => n@,
        Option::None => Seq::empty(),
    }
}

impl Material {
    /// A row with every field given, including the creation instant.
    pub fn with_created_at(
        id: String,
        name: String,
        description: Option<String>,
        creator: String,
        media_type: u16,
        created_at: i64,
    ) -> (r: Material)
        ensures
            r.id@ == id@,
            r.name matches Some(n) && n@ == name@,
            r.raw_name matches Some(n) && n@ == name@,
            opt_str(r.description) == opt_str(description),
            r.description is Some <==> description is Some,
            r.creator@ == creator@,
            r.state == STATE_OK as i64,
            r.media_type == media_type as i64,
            r.created_at == created_at,
    {
        Material {
            id,
            name: Some(name.clone()),
            raw_name: Some(name),
            description,
            creator,
            state: STATE_OK as i64,
            media_type: media_type as i64,
            created_at,
        }
    }

    /// A live video row created now.
    pub fn new_video(id: String, name: String, description: Option<String>, creator: String) -> (r:
        Material)
        ensures
            r.id@ == id@,
            r.name matches Some(n) && n@ == name@,
            r.raw_name matches Some(n) && n@ == name@,
            opt_str(r.description) == opt_str(description),
            r.description is Some <==> description is Some,
            r.creator@ == creator@,
            r.state == STATE_OK as i64,
            r.media_type == TYPE_VIDEO as i64,
    {
        let now = now_timestamp_micros();
        Material::with_created_at(id, name, description, creator, TYPE_VIDEO, now)
    }

    /// A live image row created now.
    pub fn new_image(id: String, name: String, description: Option<String>, creator: String) -> (r:
        Material)
        ensures
            r.id@ == id@,
            r.name matches Some(n) && n@ == name@,
            r.raw_name matches Some(n) && n@ == name@,
            opt_str(r.description) == opt_str(description),
            r.description is Some <==> description is Some,
            r.creator@ == creator@,
            r.state == STATE_OK as i64,
            r.media_type == TYPE_IMAGE as i64,
    {
        let now = now_timestamp_micros();
        Material::with_created_at(id, name, description, creator, TYPE_IMAGE, now)
    }
}

/// The read-side view of one video record.
#[derive(Debug)]
pub struct MaterialVideo {
    /// Identifier of the record.
    pub id: Id,
    /// Display name; empty if the row has none.
    pub name: String,
    /// URL of the raw payload.
    pub raw: String,
    /// URL of the thumbnail image.
    pub thumbnail: String,
    /// Description; empty if the row has none.
    pub description: String,
}

/// The adaptive-streaming URLs of one video record.
#[derive(Debug)]
pub struct VideoSlices {
    /// URL of the master playlist.
    pub slice: String,
    /// URL of the lower rung's playlist.
    pub slice720p: String,
    /// URL of the higher rung's playlist.
    pub slice1080p: String,
}

/// The full read-side view of one video record.
#[derive(Debug)]
pub struct MaterialVideoDetail {
    /// The record's names and direct URLs.
    pub video: MaterialVideo,
    /// The record's streaming URLs.
    pub slices: VideoSlices,
}

/// The read-side view of one image record.
#[derive(Debug)]
pub struct MaterialImage {
    /// Identifier of the record.
    pub id: Id,
    /// Display name; empty if the row has none.
    pub name: String,
    /// URL of the raw payload.
    pub raw: String,
    /// Description; empty if the row has none.
    pub description: String,
}

/// The read-side view of one record, whatever its media type.
#[derive(Debug)]
pub enum MaterialDetail {
    Video(MaterialVideoDetail),
    Image(MaterialImage),
}

/// What the video view of a row must hold: the row's identifier and
/// texts, and the record's artifact URLs under the given base.
pub open spec fn video_detail_matches(
    storage: &LocalStorage,
    base: Seq<char>,
    material: Material,
    d: MaterialVideoDetail,
) -> bool {
    &&& d.video.id@ == material.id@
    &&& d.video.name@ == opt_str(material.name)
    &&& d.video.description@ == opt_str(material.description)
    &&& d.video.raw@ == storage.spec_url(base, material.id@, "raw"@)
    &&& d.video.thumbnail@ == storage.spec_url(base, material.id@, "thumbnail.jpeg"@)
    &&& d.slices.slice@ == storage.spec_url(base, material.id@, "slice.m3u8"@)
    &&& d.slices.slice720p@ == storage.spec_url(base, material.id@, "720p/slice.m3u8"@)
    &&& d.slices.slice1080p@ == storage.spec_url(base, material.id@, "1080p/slice.m3u8"@)
}

/// What the image view of a row must hold.
pub open spec fn image_detail_matches(
    storage: &LocalStorage,
    base: Seq<char>,
    material: Material,
    d: MaterialImage,
) -> bool {
    &&& d.id@ == material.id@
    &&& d.name@ == opt_str(material.name)
    &&& d.description@ == opt_str(material.description)
    &&& d.raw@ == storage.spec_url(base, material.id@, "raw"@)
}

/// Unwrap an optional text, empty when absent.
fn text_or_empty(o: Option<String>) -> (r: String)
    ensures
        r@ == opt_str(o),
{
    match o {
        Some(n) => n,
        None => String::new(),
    }
}

/// The materials service: the blob store plus the read-side view logic.
/// Searching, metadata persistence and the transcoder runs are external
/// collaborators; this type owns what can be decided from the store alone.
pub struct MaterialsService {
    /// The blob store the service works against.
    pub storage: LocalStorage,
}

impl MaterialsService {
    /// A service over the given store.
    pub fn new(storage: LocalStorage) -> (r: MaterialsService)
        ensures
            r.storage == storage,
    {
        MaterialsService { storage }
    }

    /// The video view of one row: names, payload and thumbnail URLs, and
    /// the three streaming URLs. Fails only if the configured mount path
    /// cannot be safely joined into a URL.
    pub fn transfer_video(&self, base_url: &str, material: Material) -> (r: AppResult<
        MaterialVideoDetail,
    >)
        ensures
            is_url_safe(self.storage.spec_uri_path()) ==> (r matches Ok(d)
                && video_detail_matches(&self.storage, base_url@, material, d)),
            !is_url_safe(self.storage.spec_uri_path()) ==> (r matches Err(
                AppError::InvalidUriPath(p),
            ) && p@ == self.storage.spec_uri_path()),
    {
        let id = Id(material.id);
        let slice = match self.storage.url(base_url, &id, "slice.m3u8") {
            Ok(u) => u,
            Err(e) => {
                return Err(e);
            },
        };
        let slice720p = match self.storage.url(base_url, &id, "720p/slice.m3u8") {
            Ok(u) => u,
            Err(e) => {
                return Err(e);
            },
        };
        let slice1080p = match self.storage.url(base_url, &id, "1080p/slice.m3u8") {
            Ok(u) => u,
            Err(e) => {
                return Err(e);
            },
        };
        let raw = match self.storage.url(base_url, &id, "raw") {
            Ok(u) => u,
            Err(e) => {
                return Err(e);
            },
        };
        let thumbnail = match self.storage.url(base_url, &id, "thumbnail.jpeg") {
            Ok(u) => u,
            Err(e) => {
                return Err(e);
            },
        };
        let slices = VideoSlices { slice, slice720p, slice1080p };
        let video = MaterialVideo {
            id,
            name: text_or_empty(material.name),
            raw,
            thumbnail,
            description: text_or_empty(material.description),
        };
        Ok(MaterialVideoDetail { video, slices })
    }

    /// The image view of one row: names and the payload URL. Fails only if
    /// the configured mount path cannot be safely joined into a URL.
    pub fn transfer_image(&self, base_url: &str, material: Material) -> (r: AppResult<
        MaterialImage,
    >)
        ensures
            is_url_safe(self.storage.spec_uri_path()) ==> (r matches Ok(d)
                && image_detail_matches(&self.storage, base_url@, material, d)),
            !is_url_safe(self.storage.spec_uri_path()) ==> (r matches Err(
                AppError::InvalidUriPath(p),
            ) && p@ == self.storage.spec_uri_path()),
    {
        let id = Id(material.id);
        let raw = match self.storage.url(base_url, &id, "raw") {
            Ok(u) => u,
            Err(e) => {
                return Err(e);
            },
        };
        Ok(
            MaterialImage {
                id,
                name: text_or_empty(material.name),
                raw,
                description: text_or_empty(material.description),
            },
        )
    }

    /// The view of one row, discriminated by its media type. A row whose
    /// discriminator is neither the video nor the image tag is rejected.
    pub fn transfer(&self, base_url: &str, material: Material) -> (r: AppResult<MaterialDetail>)
        ensures
            (material.media_type as u16 == TYPE_VIDEO && is_url_safe(
                self.storage.spec_uri_path(),
            )) ==> (r matches Ok(MaterialDetail::Video(d)) && video_detail_matches(
                &self.storage,
                base_url@,
                material,
                d,
            )),
            (material.media_type as u16 == TYPE_IMAGE && is_url_safe(
                self.storage.spec_uri_path(),
            )) ==> (r matches Ok(MaterialDetail::Image(d)) && image_detail_matches(
                &self.storage,
                base_url@,
                material,
                d,
            )),
            (material.media_type as u16 != TYPE_VIDEO && material.media_type as u16 != TYPE_IMAGE)
                ==> (r matches Err(AppError::WrongMaterialType(t)) && t == material.media_type
                as u16),
            ((material.media_type as u16 == TYPE_VIDEO || material.media_type as u16 == TYPE_IMAGE)
                && !is_url_safe(self.storage.spec_uri_path())) ==> (r matches Err(
                AppError::InvalidUriPath(p),
            ) && p@ == self.storage.spec_uri_path()),
    {
        #[verifier::truncate]
        let tag = material.media_type as u16;
        if tag == TYPE_VIDEO {
            match self.transfer_video(base_url, material) {
                Ok(d) => Ok(MaterialDetail::Video(d)),
                Err(e) => Err(e),
            }
        } else if tag == TYPE_IMAGE {
            match self.transfer_image(base_url, material) {
                Ok(d) => Ok(MaterialDetail::Image(d)),
                Err(e) => Err(e),
            }
        } else {
            Err(AppError::WrongMaterialType(tag))
        }
    }

    /// The view of one committed record, given its row. An identifier
    /// without a committed record is reported as not found, before the row
    /// is looked at.
    pub fn detail(&self, id: &Id, base_url: &str, material: Material) -> (r: AppResult<
        MaterialDetail,
    >)
        ensures
            !spec_exists(self.storage.abs(), id@) ==> (r matches Err(AppError::MaterialNotFound(s))
                && s@ == id@),
            (spec_exists(self.storage.abs(), id@) && material.media_type as u16 == TYPE_VIDEO
                && is_url_safe(self.storage.spec_uri_path())) ==> (r matches Ok(
                MaterialDetail::Video(d),
            ) && video_detail_matches(&self.storage, base_url@, material, d)),
            (spec_exists(self.storage.abs(), id@) && material.media_type as u16 == TYPE_IMAGE
                && is_url_safe(self.storage.spec_uri_path())) ==> (r matches Ok(
                MaterialDetail::Image(d),
            ) && image_detail_matches(&self.storage, base_url@, material, d)),
            (spec_exists(self.storage.abs(), id@) && material.media_type as u16 != TYPE_VIDEO
                && material.media_type as u16 != TYPE_IMAGE) ==> (r matches Err(
                AppError::WrongMaterialType(t),
            ) && t == material.media_type as u16),
            (spec_exists(self.storage.abs(), id@) && (material.media_type as u16 == TYPE_VIDEO
                || material.media_type as u16 == TYPE_IMAGE) && !is_url_safe(
                self.storage.spec_uri_path(),
            )) ==> (r matches Err(AppError::InvalidUriPath(p)) && p@
                == self.storage.spec_uri_path()),
    {
        if !self.storage.is_committed(id) {
            return Err(AppError::MaterialNotFound(id.0.clone()));
        }
        self.transfer(base_url, material)
    }

    /// Begin one video upload: store the byte payload under a fresh
    /// server-generated identifier, and hand back the ingestion
    /// orchestrator for that identifier together with the store's
    /// outcome. The caller feeds the outcome in as the first signal and
    /// then performs the actions the orchestrator asks for.
    pub fn upload(&mut self, bytes: &Vec<u8>) -> (r: (Ingest, SavedId))
        ensures
            is_generated_id(r.0.spec_id()),
            r.0.model() == init_model(),
            final(self).storage.abs().records == spec_save(
                old(self).storage.abs().records,
                r.0.spec_id(),
                bytes@,
            ).0,
            r.1 == spec_save(old(self).storage.abs().records, r.0.spec_id(), bytes@).1,
            final(self).storage.spec_dir() == old(self).storage.spec_dir(),
            final(self).storage.spec_uri_path() == old(self).storage.spec_uri_path(),
    {
        let id = Id::new_uuid();
        let outcome = self.storage.save(&id, bytes);
        (Ingest::new(id), outcome)
    }

    /// Store one image payload under a fresh server-generated identifier.
    /// Reports whether the bytes were freshly committed; the caller
    /// creates the metadata row only in that case.
    pub fn store_image(&mut self, bytes: &Vec<u8>) -> (r: (Id, SavedId))
        ensures
            is_generated_id(r.0@),
            final(self).storage.abs().records == spec_save(
                old(self).storage.abs().records,
                r.0@,
                bytes@,
            ).0,
            r.1 == spec_save(old(self).storage.abs().records, r.0@, bytes@).1,
            final(self).storage.spec_dir() == old(self).storage.spec_dir(),
            final(self).storage.spec_uri_path() == old(self).storage.spec_uri_path(),
    {
        let id = Id::new_uuid();
        let outcome = self.storage.save(&id, bytes);
        (id, outcome)
    }

    /// Delete each listed record that is committed; the metadata rows of
    /// the whole batch may be dropped only after this returns. Absent
    /// identifiers are skipped, which deletion makes indistinguishable
    /// from deleting them.
    pub fn batch_delete(&mut self, ids: &Vec<Id>)
        ensures
            final(self).storage.abs().records == spec_delete_all(
                old(self).storage.abs().records,
                ids@.map_values(|i: Id| i@),
            ),
            final(self).storage.spec_dir() == old(self).storage.spec_dir(),
            final(self).storage.spec_uri_path() == old(self).storage.spec_uri_path(),
    {
        let ghost keys = ids@.map_values(|i: Id| i@);
        let mut k: usize = 0;
        proof {
            assert(keys.skip(0) =~= keys);
        }
        while k < ids.len()
            invariant
                k <= ids.len(),
                keys == ids@.map_values(|i: Id| i@),
                spec_delete_all(old(self).storage.abs().records, keys) == spec_delete_all(
                    self.storage.abs().records,
                    keys.skip(k as int),
                ),
                self.storage.spec_dir() == old(self).storage.spec_dir(),
                self.storage.spec_uri_path() == old(self).storage.spec_uri_path(),
            decreases ids.len() - k,
        {
            let ghost before = self.storage.abs().records;
            proof {
                assert(keys.skip(k as int).first() == keys[k as int]);
                assert(keys.skip(k as int).drop_first() =~= keys.skip(k as int + 1));
            }
            if self.storage.is_committed(&ids[k]) {
                self.storage.delete(&ids[k]);
            } else {
                proof {
                    assert(spec_delete(before, keys[k as int]) =~= before);
                }
            }
            k = k + 1;
        }
        proof {
            assert(keys.skip(keys.len() as int) =~= Seq::<Seq<char>>::empty());
        }
    }

    /// Delete one committed record: the record subtree is removed first;
    /// the metadata row may be dropped only after this returns
    /// successfully. An identifier without a committed record is reported
    /// as not found and nothing changes.
    pub fn delete(&mut self, id: &Id) -> (r: AppResult<()>)
        ensures
            spec_exists(old(self).storage.abs(), id@) ==> (r is Ok && final(self).storage.abs().records
                == spec_delete(old(self).storage.abs().records, id@)),
            !spec_exists(old(self).storage.abs(), id@) ==> (r matches Err(
                AppError::MaterialNotFound(s),
            ) && s@ == id@ && final(self).storage.abs().records == old(
                self,
            ).storage.abs().records),
            final(self).storage.spec_dir() == old(self).storage.spec_dir(),
            final(self).storage.spec_uri_path() == old(self).storage.spec_uri_path(),
    {
        if !self.storage.is_committed(id) {
            return Err(AppError::MaterialNotFound(id.0.clone()));
        }
        self.storage.delete(id);
        Ok(())
    }
}

} // verus!
