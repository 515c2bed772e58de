//! Images: files stored as WebP and named by the identifier of their index
//! entry, and the turn or mirror that shows a photo upright.

use crate::entry_id::{is_v4_bits, lemma_unhyphenate_uuid_text, lemma_uuid_text_injective, uuid_text, EntryId};
use crate::index::Index;
use crate::remote::{cdn_url, cdn_url_text, lemma_cdn_url_ends_with_path};
use crate::settings::{default_image_index_base_path, AppConfig};
use bytes::Bytes;
use exif::{In, Reader, Tag};
use vstd::prelude::*;

verus! {

/// An image as the index lists it.
#[derive(Debug, PartialEq, Eq)]
pub struct ImageEntry {
    pub description: String,
    pub id: EntryId,
    pub ext: Option<String>,
}

#[verifier::external_type_specification]
#[verifier::external_body]
pub struct ExBytes(Bytes);

/// `<bytes::Bytes as Clone>::clone`: another handle on the same bytes. A
/// `Bytes` is opaque here, so nothing is stated of the result.
pub assume_specification[ <Bytes as Clone>::clone ](b: &Bytes) -> Bytes;

/// The bytes of an image file, as fetched from the repository.
#[derive(Debug, Clone, PartialEq)]
pub struct Image {
    pub content: Bytes,
}

impl Clone for ImageEntry {
    fn clone(&self) -> (copy: ImageEntry)
        ensures
            copy == *self,
    {
        let ext = match &self.ext {
            Some(e) => Some(e.clone()),
            None => None,
        };
        ImageEntry { description: self.description.clone(), id: self.id, ext }
    }
}

impl ImageEntry {
    /// A new entry with the given description and extension and a fresh random
    /// identifier.
    pub fn new(description: String, ext: Option<String>) -> (entry: ImageEntry)
        ensures
            entry.description == description,
            entry.ext == ext,
            is_v4_bits(entry.id.0),
    {
        ImageEntry { description, id: EntryId::new_random(), ext }
    }
}

/// The extension under which images are stored.
pub open spec fn stored_extension() -> Seq<char> {
    "webp"@
}

/// The path of an image's file in the repository: `images/{id}`, followed by
/// `.{ext}` where the entry has an extension.
pub open spec fn repo_image_path(id: EntryId, ext: Option<String>) -> Seq<char> {
    match ext {
        Some(e) => "images/"@ + uuid_text(id.0) + "."@ + e@,
        None => "images/"@ + uuid_text(id.0),
    }
}

/// The path of a stored image in the directory `base`: `{base}/{id}.webp`.
pub open spec fn local_image_path(base: Seq<char>, id: EntryId) -> Seq<char> {
    base + "/"@ + uuid_text(id.0) + "."@ + stored_extension()
}

/// A stored image's path is the directory, a slash, the identifier's whole
/// text and `.webp`.
pub proof fn lemma_local_image_path_shape(base: Seq<char>, id: EntryId)
    ensures
        local_image_path(base, id).len() == base.len() + 42,
        local_image_path(base, id).subrange(0, base.len() as int) == base,
        local_image_path(base, id)[base.len() as int] == '/',
        local_image_path(base, id).subrange(base.len() + 1int, base.len() + 37int) == uuid_text(
            id.0,
        ),
        local_image_path(base, id).subrange(base.len() + 37int, base.len() + 42int) == ".webp"@,
{
    lemma_unhyphenate_uuid_text(id.0);
    reveal_strlit("/");
    reveal_strlit(".");
    reveal_strlit("webp");
    reveal_strlit(".webp");
    let l = local_image_path(base, id);
    let b = base.len() as int;
    assert(l.subrange(0, b) =~= base);
    assert(l.subrange(b + 1, b + 37) =~= uuid_text(id.0));
    assert(l.subrange(b + 37, b + 42) =~= ".webp"@);
}

/// An image's repository path is `images/`, the 36 characters of its
/// identifier's text, and then, where the entry has an extension, a dot and
/// the whole extension, whatever it is.
pub proof fn lemma_repo_image_path_keeps_extension(id: EntryId, ext: Option<String>)
    ensures
        repo_image_path(id, ext).subrange(0, 7) == "images/"@,
        repo_image_path(id, ext).subrange(7, 43) == uuid_text(id.0),
        ext is None ==> repo_image_path(id, ext).len() == 43,
        ext is Some ==> repo_image_path(id, ext).len() == 44 + ext.unwrap()@.len(),
        ext is Some ==> repo_image_path(id, ext)[43] == '.',
        ext is Some ==> repo_image_path(id, ext).subrange(44, repo_image_path(id, ext).len() as int)
            == ext.unwrap()@,
{
    lemma_unhyphenate_uuid_text(id.0);
    reveal_strlit("images/");
    reveal_strlit(".");
    let p = repo_image_path(id, ext);
    assert(p.subrange(0, 7) =~= "images/"@);
    assert(p.subrange(7, 43) =~= uuid_text(id.0));
    if ext is Some {
        assert(p.subrange(44, p.len() as int) =~= ext.unwrap()@);
    }
}

/// The path of an image's file in the repository.
pub fn image_repo_path(id: EntryId, ext: &Option<String>) -> (path: String)
    ensures
        path@ == repo_image_path(id, *ext),
        path@.subrange(7, 43) == uuid_text(id.0),
        ext is None ==> path@.len() == 43,
        ext is Some ==> path@.len() == 44 + ext.unwrap()@.len(),
        ext is Some ==> path@.subrange(44, path@.len() as int) == ext.unwrap()@,
{
    proof {
        lemma_repo_image_path_keeps_extension(id, *ext);
    }
    let text = id.text();
    let mut path = String::from_str("images/");
    path.append(text.as_str());
    match ext {
        Some(e) => {
            path.append(".");
            path.append(e.as_str());
        },
        None => {},
    }
    path
}

/// The address from which an image is fetched: its file in the configured
/// repository at commit `sha`, through the jsDelivr mirror.
pub fn image_url(config: &AppConfig, sha: &str, id: EntryId, ext: &Option<String>) -> (url: String)
    ensures
        url@ == cdn_url_text(config.gh_owner@, config.gh_repo@, sha@, repo_image_path(id, *ext)),
        ext is Some ==> url@.subrange(url@.len() - ext.unwrap()@.len(), url@.len() as int)
            == ext.unwrap()@,
        ext is Some ==> url@[url@.len() - ext.unwrap()@.len() - 1] == '.',
{
    proof {
        lemma_repo_image_path_keeps_extension(id, *ext);
        lemma_cdn_url_ends_with_path(
            config.gh_owner@,
            config.gh_repo@,
            sha@,
            repo_image_path(id, *ext),
        );
    }
    let path = image_repo_path(id, ext);
    cdn_url(config.gh_owner.as_str(), config.gh_repo.as_str(), sha, path.as_str())
}

/// The path of a stored image in the directory `base`.
pub fn image_file_path(base: &str, id: EntryId) -> (path: String)
    ensures
        path@ == local_image_path(base@, id),
{
    let text = id.text();
    let mut path = String::from_str(base);
    path.append("/");
    path.append(text.as_str());
    path.append(".");
    path.append("webp");
    path
}

/// How a new image's file is stored.
#[derive(Clone, Copy, Debug, PartialEq, Eq, Structural)]
pub enum ImageStore {
    /// The file is already WebP: it is copied as it is.
    CopyAsIs,
    /// The file is decoded, turned upright and encoded as WebP.
    ConvertToWebp,
}

/// How a file with extension `ext` is stored: copied where it is `webp`,
/// converted otherwise.
pub open spec fn store_for_extension(ext: Seq<char>) -> ImageStore {
    if ext == stored_extension() {
        ImageStore::CopyAsIs
    } else {
        ImageStore::ConvertToWebp
    }
}

/// A file is copied as it is exactly when its extension is `webp`, letter for
/// letter; a file with any other extension is converted.
pub proof fn lemma_only_webp_is_copied(ext: Seq<char>)
    ensures
        store_for_extension(ext) == ImageStore::CopyAsIs <==> ext == "webp"@,
        ext != "webp"@ ==> store_for_extension(ext) == ImageStore::ConvertToWebp,
{
}

/// The image file that adding an image writes, before the index is updated.
#[derive(Debug)]
pub struct ImageDraft {
    /// The index entry of the new image.
    pub entry: ImageEntry,
    /// Where the stored image is written.
    pub image_file_path: String,
    /// How it is written.
    pub store: ImageStore,
    /// Where the index that the entry is then added to is stored.
    pub index_file_path: String,
}

/// The file that adding the image `entry`, read from a file with extension
/// `source_extension`, writes: under the image directory, named by the
/// entry's identifier with extension `webp`, copied where the source is WebP
/// already and converted otherwise; and where the index that the entry joins
/// is stored.
pub fn draft_new_image(config: &AppConfig, entry: ImageEntry, source_extension: &str) -> (draft:
    ImageDraft)
    ensures
        draft.entry == entry,
        draft.image_file_path@ == local_image_path(config.image_index_base_path@, entry.id),
        draft.store == store_for_extension(source_extension@),
        draft.store == ImageStore::CopyAsIs <==> source_extension@ == "webp"@,
        source_extension@ != "webp"@ ==> draft.store == ImageStore::ConvertToWebp,
        draft.index_file_path@ == config.image_index_file_path@,
{
    proof {
        lemma_only_webp_is_copied(source_extension@);
    }
    let image_file_path = image_file_path(config.image_index_base_path.as_str(), entry.id);
    let source = String::from_str(source_extension);
    let webp = String::from_str("webp");
    let store = if source == webp {
        ImageStore::CopyAsIs
    } else {
        ImageStore::ConvertToWebp
    };
    let index_file_path = config.image_index_file_path.clone();
    ImageDraft { entry, image_file_path, store, index_file_path }
}

/// Adds an image described by `description`, read from a file whose
/// extension is `source_extension`: a new entry with a fresh identifier and
/// extension `webp`, the image stored as `{base}/{id}.webp`. The entry then
/// joins the index stored at `index_file_path` (see `Index::extended`). A file
/// with no extension is refused (`None`).
pub fn create_new_image(
    config: &AppConfig,
    source_extension: Option<String>,
    description: String,
) -> (draft: Option<ImageDraft>)
    ensures
        draft is None <==> source_extension is None,
        draft matches Some(d) ==> {
            &&& d.entry.description == description
            &&& d.entry.ext matches Some(e) && e@ == stored_extension() && e@ == "webp"@
            &&& is_v4_bits(d.entry.id.0)
            &&& d.image_file_path@ == local_image_path(config.image_index_base_path@, d.entry.id)
            &&& d.store == store_for_extension(source_extension.unwrap()@)
            &&& (d.store == ImageStore::CopyAsIs <==> source_extension.unwrap()@ == "webp"@)
            &&& d.index_file_path@ == config.image_index_file_path@
        },
{
    match source_extension {
        Some(ext) => {
            let entry = ImageEntry::new(description, Some(String::from_str("webp")));
            Some(draft_new_image(config, entry, ext.as_str()))
        },
        None => None,
    }
}

/// Two entries with different identifiers never share a stored image file.
pub proof fn lemma_image_paths_distinct(base: Seq<char>, a: EntryId, b: EntryId)
    requires
        a != b,
    ensures
        local_image_path(base, a) != local_image_path(base, b),
{
    lemma_unhyphenate_uuid_text(a.0);
    lemma_unhyphenate_uuid_text(b.0);
    reveal_strlit("/");
    let start: int = base.len() + 1int;
    if local_image_path(base, a) == local_image_path(base, b) {
        assert(local_image_path(base, a).subrange(start, start + 36) =~= uuid_text(a.0));
        assert(local_image_path(base, b).subrange(start, start + 36) =~= uuid_text(b.0));
        lemma_uuid_text_injective(a.0, b.0);
    }
}

/// The first of `entries` whose identifier is `id`, if any.
pub open spec fn first_with_id(entries: Seq<ImageEntry>, id: EntryId) -> Option<ImageEntry>
    decreases entries.len(),
{
    if entries.len() == 0 {
        None
    } else if entries[0].id == id {
        Some(entries[0])
    } else {
        first_with_id(entries.drop_first(), id)
    }
}

/// Looking up an identifier finds an entry exactly when some entry has it,
/// and what it finds is the earliest such entry: it has the identifier, and no
/// entry before it does.
pub proof fn lemma_first_with_id_finds_earliest(entries: Seq<ImageEntry>, id: EntryId)
    ensures
        first_with_id(entries, id) is Some <==> exists|i: int|
            0 <= i < entries.len() && #[trigger] entries[i].id == id,
        first_with_id(entries, id) is Some ==> first_with_id(entries, id).unwrap().id == id,
        first_with_id(entries, id) is Some ==> exists|i: int|
            0 <= i < entries.len() && #[trigger] entries[i] == first_with_id(entries, id).unwrap()
                && forall|j: int| 0 <= j < i ==> (#[trigger] entries[j]).id != id,
    decreases entries.len(),
{
    if entries.len() > 0 {
        let rest = entries.drop_first();
        lemma_first_with_id_finds_earliest(rest, id);
        if entries[0].id == id {
            assert(entries[0] == first_with_id(entries, id).unwrap());
        } else {
            if exists|i: int| 0 <= i < entries.len() && #[trigger] entries[i].id == id {
                let i = choose|i: int| 0 <= i < entries.len() && #[trigger] entries[i].id == id;
                assert(rest[i - 1].id == id);
            }
            if exists|i: int| 0 <= i < rest.len() && #[trigger] rest[i].id == id {
                let i = choose|i: int| 0 <= i < rest.len() && #[trigger] rest[i].id == id;
                assert(entries[i + 1].id == id);
            }
            if first_with_id(entries, id) is Some {
                let e = first_with_id(entries, id).unwrap();
                let k = choose|k: int|
                    0 <= k < rest.len() && #[trigger] rest[k] == e && forall|j: int|
                        0 <= j < k ==> (#[trigger] rest[j]).id != id;
                assert(entries[k + 1] == e);
                assert forall|j: int| 0 <= j < k + 1 implies (#[trigger] entries[j]).id != id by {
                    if j > 0 {
                        assert(entries[j] == rest[j - 1]);
                    }
                }
            }
        }
    }
}

impl Index<ImageEntry> {
    /// The first entry of the index whose identifier is `id`, if any.
    pub fn entry_with_id(&self, id: EntryId) -> (found: Option<&ImageEntry>)
        ensures
            found is Some <==> first_with_id(self.0@, id) is Some,
            found is Some ==> *found.unwrap() == first_with_id(self.0@, id).unwrap(),
            found is Some <==> exists|i: int|
                0 <= i < self.0@.len() && #[trigger] self.0@[i].id == id,
            found is Some ==> found.unwrap().id == id,
            found is Some ==> exists|i: int|
                0 <= i < self.0@.len() && #[trigger] self.0@[i] == *found.unwrap() && forall|j: int|
                    0 <= j < i ==> (#[trigger] self.0@[j]).id != id,
            found is None ==> forall|i: int| 0 <= i < self.0@.len() ==> (#[trigger] self.0@[i]).id != id,
    {
        proof {
            lemma_first_with_id_finds_earliest(self.0@, id);
        }
        let n = self.0.len();
        let mut i: usize = 0;
        assert(self.0@.skip(0) =~= self.0@);
        while i < n
            invariant
                n == self.0@.len(),
                i <= n,
                first_with_id(self.0@, id) == first_with_id(self.0@.skip(i as int), id),
                forall|j: int| 0 <= j < i ==> (#[trigger] self.0@[j]).id != id,
            decreases n - i,
        {
            assert(self.0@.skip(i as int).drop_first() =~= self.0@.skip(i + 1));
            assert(self.0@.skip(i as int)[0] == self.0@[i as int]);
            if self.0[i].id == id {
                return Some(&self.0[i]);
            }
            i += 1;
        }
        assert(self.0@.skip(n as int).len() == 0);
        None
    }
}

/// The turn and mirror that show an image upright.
#[derive(Clone, Copy, Debug, PartialEq, Eq, Structural)]
pub enum OrientationFix {
    /// The image is shown as it is stored.
    Keep,
    /// Mirrored left to right.
    FlipHorizontal,
    /// Turned half a turn.
    Rotate180,
    /// Turned half a turn, then mirrored left to right.
    Rotate180FlipHorizontal,
    /// Turned a quarter turn clockwise, then mirrored left to right.
    Rotate90FlipHorizontal,
    /// Turned a quarter turn clockwise.
    Rotate90,
    /// Turned three quarters clockwise, then mirrored left to right.
    Rotate270FlipHorizontal,
    /// Turned three quarters clockwise.
    Rotate270,
}

/// The fix for an image whose EXIF orientation tag reads `orientation`
/// (`None` where the tag is missing or holds no number): one for each of the
/// eight values that EXIF defines, and none for the others.
pub open spec fn fix_for(orientation: Option<u32>) -> OrientationFix {
    match orientation {
        Some(1) => OrientationFix::Keep,
        Some(2) => OrientationFix::FlipHorizontal,
        Some(3) => OrientationFix::Rotate180,
        Some(4) => OrientationFix::Rotate180FlipHorizontal,
        Some(5) => OrientationFix::Rotate90FlipHorizontal,
        Some(6) => OrientationFix::Rotate90,
        Some(7) => OrientationFix::Rotate270FlipHorizontal,
        Some(8) => OrientationFix::Rotate270,
        _ => OrientationFix::Keep,
    }
}

/// The fix that shows upright an image whose EXIF orientation tag reads
/// `orientation`.
pub fn orientation_fix(orientation: Option<u32>) -> (fix: OrientationFix)
    ensures
        fix == fix_for(orientation),
{
    match orientation {
        Some(1) => OrientationFix::Keep,
        Some(2) => OrientationFix::FlipHorizontal,
        Some(3) => OrientationFix::Rotate180,
        Some(4) => OrientationFix::Rotate180FlipHorizontal,
        Some(5) => OrientationFix::Rotate90FlipHorizontal,
        Some(6) => OrientationFix::Rotate90,
        Some(7) => OrientationFix::Rotate270FlipHorizontal,
        Some(8) => OrientationFix::Rotate270,
        _ => OrientationFix::Keep,
    }
}

/// What `kamadak-exif` reads as the orientation of an image file's primary
/// image: `None` where it cannot read the file's container or the Exif data in
/// it; otherwise `Some` of the first unsigned integer of the `Orientation`
/// field, or `Some(None)` where there is no such field or it holds no
/// unsigned integer.
pub uninterp spec fn exif_primary_orientation(file: Seq<u8>) -> Option<Option<u32>>;

/// `exif::Reader::read_from_container` over the file's bytes, then
/// `Exif::get_field(Tag::Orientation, In::PRIMARY)` and `Value::get_uint(0)`:
/// the orientation that `kamadak-exif` reads from the file, a function of its
/// bytes alone. The formats and the parsing are not stated.
#[verifier::external_body]
fn read_orientation(file: &[u8]) -> (r: Option<Option<u32>>)
    ensures
        r == exif_primary_orientation(file@),
{
    match Reader::new().read_from_container(&mut std::io::Cursor::new(file)) {
        Ok(exif) => Some(
            match exif.get_field(Tag::Orientation, In::PRIMARY) {
                Some(field) => field.value.get_uint(0),
                None => None,
            },
        ),
        Err(_) => None,
    }
}

/// The fix that shows upright the image of a file, as its Exif orientation
/// says; `None` where the file's Exif data cannot be read.
pub fn orientation_fix_of_file(file: &[u8]) -> (fix: Option<OrientationFix>)
    ensures
        fix == match exif_primary_orientation(file@) {
            Some(o) => Some(fix_for(o)),
            None => None,
        },
{
    match read_orientation(file) {
        Some(o) => Some(orientation_fix(o)),
        None => None,
    }
}

/// A linear map of the plane, `(x, y) -> (a * x + b * y, c * x + d * y)`, in
/// image coordinates centred on the image (x to the right, y downwards).
pub open spec fn plane_map(a: int, b: int, c: int, d: int) -> (int, int, int, int) {
    (a, b, c, d)
}

/// `f` after `g`.
pub open spec fn compose(f: (int, int, int, int), g: (int, int, int, int)) -> (int, int, int, int) {
    (f.0 * g.0 + f.1 * g.2, f.0 * g.1 + f.1 * g.3, f.2 * g.0 + f.3 * g.2, f.2 * g.1 + f.3 * g.3)
}

/// Leaving pixels where they are.
pub open spec fn identity_map() -> (int, int, int, int) {
    plane_map(1, 0, 0, 1)
}

/// Mirroring left to right, as `image`'s `fliph` does.
pub open spec fn fliph_map() -> (int, int, int, int) {
    plane_map(-1, 0, 0, 1)
}

/// A quarter turn clockwise, as `image`'s `rotate90` does.
pub open spec fn rotate90_map() -> (int, int, int, int) {
    plane_map(0, -1, 1, 0)
}

/// A half turn, as `image`'s `rotate180` does.
pub open spec fn rotate180_map() -> (int, int, int, int) {
    plane_map(-1, 0, 0, -1)
}

/// Three quarter turns clockwise, as `image`'s `rotate270` does.
pub open spec fn rotate270_map() -> (int, int, int, int) {
    plane_map(0, 1, -1, 0)
}

/// What a fix does to the pixels: its operations, applied in turn.
pub open spec fn fix_map(fix: OrientationFix) -> (int, int, int, int) {
    match fix {
        OrientationFix::Keep => identity_map(),
        OrientationFix::FlipHorizontal => fliph_map(),
        OrientationFix::Rotate180 => rotate180_map(),
        OrientationFix::Rotate180FlipHorizontal => compose(fliph_map(), rotate180_map()),
        OrientationFix::Rotate90FlipHorizontal => compose(fliph_map(), rotate90_map()),
        OrientationFix::Rotate90 => rotate90_map(),
        OrientationFix::Rotate270FlipHorizontal => compose(fliph_map(), rotate270_map()),
        OrientationFix::Rotate270 => rotate270_map(),
    }
}

/// How the pixels of an image stored with EXIF orientation `o` must move to be
/// shown upright, as EXIF describes the eight values: 1 as stored, 2 mirrored
/// left to right, 3 turned half a turn, 4 mirrored top to bottom, 5 mirrored
/// about the main diagonal, 6 turned a quarter clockwise, 7 mirrored about the
/// other diagonal, 8 turned a quarter anticlockwise.
pub open spec fn exif_display_map(o: u32) -> (int, int, int, int) {
    if o == 2 {
        plane_map(-1, 0, 0, 1)
    } else if o == 3 {
        plane_map(-1, 0, 0, -1)
    } else if o == 4 {
        plane_map(1, 0, 0, -1)
    } else if o == 5 {
        plane_map(0, 1, 1, 0)
    } else if o == 6 {
        plane_map(0, -1, 1, 0)
    } else if o == 7 {
        plane_map(0, -1, -1, 0)
    } else if o == 8 {
        plane_map(0, 1, -1, 0)
    } else {
        identity_map()
    }
}

/// The fix chosen for each EXIF orientation moves the pixels exactly as EXIF
/// says they must move to show the image upright; an image with no
/// orientation, or one that EXIF does not define, is left as it is.
pub proof fn lemma_orientation_fix_shows_upright(o: u32)
    ensures
        1 <= o <= 8 ==> fix_map(fix_for(Some(o))) == exif_display_map(o),
        !(1 <= o <= 8) ==> fix_map(fix_for(Some(o))) == identity_map(),
        fix_map(fix_for(None)) == identity_map(),
{
}

/// With the default configuration, the file that adding an image stores is,
/// relative to the repository's root, the file that fetching the image of the
/// new entry (whose extension is `webp`) reads: `./images/{id}.webp` locally,
/// `images/{id}.webp` in the repository.
pub proof fn lemma_default_image_file_is_fetched_file(id: EntryId, ext: String)
    requires
        ext@ == stored_extension(),
    ensures
        local_image_path(default_image_index_base_path(), id) == "./"@ + repo_image_path(
            id,
            Some(ext),
        ),
{
    reveal_strlit("./images");
    reveal_strlit("/");
    reveal_strlit("./");
    reveal_strlit("images/");
    assert(local_image_path(default_image_index_base_path(), id) =~= "./"@ + repo_image_path(
        id,
        Some(ext),
    ));
}

} // verus!
