//! The v5 package: metadata, the round tree and binary resources.
use vstd::prelude::*;
use crate::archive::{
    ArchiveError, ArchiveKey, archive_files, archive_read, archive_readable, archive_written,
    read_archive, writable_files, write_archive,
};
use crate::encoding::{percent_encode_name, percent_encoded};
use crate::identity::{date_text, format_date, random_package_id, today_utc, uuid_v4_text};
use crate::package_trait::RoundContainer;
use crate::resources::{ResourceKey, find_resource, resource_map};
use crate::text::{push_str, starts_with_str, str_eq};
use crate::v4::atom::{ResourceCategory, audio_dir, images_dir, texts_dir, video_dir};
use crate::v5::components::{AtomModel, AtomV5, InfoV5, RoundV5, empty_info};

verus! {

/// Single resource handle inside a [`PackageV5`]: its category and its
/// path in the archive (e.g. `Images/1.jpg`).
#[derive(Debug, Clone, PartialEq, Eq, Hash)]
pub enum Resource {
    Audio(String),
    Video(String),
    Image(String),
    Texts(String),
}

impl View for Resource {
    type V = (ResourceCategory, Seq<char>);

    open spec fn view(&self) -> (ResourceCategory, Seq<char>) {
        match self {
            Resource::Audio(k) => (ResourceCategory::Audio, k@),
            Resource::Video(k) => (ResourceCategory::Video, k@),
            Resource::Image(k) => (ResourceCategory::Image, k@),
            Resource::Texts(k) => (ResourceCategory::Texts, k@),
        }
    }
}

impl ResourceKey for Resource {
    fn same_key(&self, other: &Self) -> (r: bool) {
        let same_category = match (self, other) {
            (Resource::Audio(_), Resource::Audio(_)) => true,
            (Resource::Video(_), Resource::Video(_)) => true,
            (Resource::Image(_), Resource::Image(_)) => true,
            (Resource::Texts(_), Resource::Texts(_)) => true,
            _ => false,
        };
        same_category && str_eq(self.extract_key(), other.extract_key())
    }
}

impl Resource {
    /// The resource's path in the archive.
    pub fn extract_key(&self) -> (r: &str)
        ensures
            r@ == self@.1,
    {
        match self {
            Resource::Audio(key) => key.as_str(),
            Resource::Video(key) => key.as_str(),
            Resource::Image(key) => key.as_str(),
            Resource::Texts(key) => key.as_str(),
        }
    }
}

/// The handle of an archive file by the start of its name: `Audio`,
/// `Images`, `Video` or `Texts`; none for any other file.
pub open spec fn spec_resource_type(filename: Seq<char>) -> Option<(ResourceCategory, Seq<char>)> {
    if filename.len() >= 5 && filename.take(5) == audio_dir() {
        Some((ResourceCategory::Audio, filename))
    } else if filename.len() >= 6 && filename.take(6) == images_dir() {
        Some((ResourceCategory::Image, filename))
    } else if filename.len() >= 5 && filename.take(5) == video_dir() {
        Some((ResourceCategory::Video, filename))
    } else if filename.len() >= 5 && filename.take(5) == texts_dir() {
        Some((ResourceCategory::Texts, filename))
    } else {
        None
    }
}

/// The resource handle of an archive file, by the start of its name;
/// `None` for a file of unknown type.
pub fn get_resource_type(filename: &str) -> (r: Option<Resource>)
    ensures
        r is Some <==> spec_resource_type(filename@) is Some,
        r is Some ==> r->0@ == spec_resource_type(filename@)->0,
{
    proof {
        reveal_strlit("Audio");
        reveal_strlit("Images");
        reveal_strlit("Video");
        reveal_strlit("Texts");
        assert("Audio"@ == audio_dir());
        assert("Images"@ == images_dir());
        assert("Video"@ == video_dir());
        assert("Texts"@ == texts_dir());
    }
    if starts_with_str(filename, "Audio") {
        Some(Resource::Audio(filename.to_string()))
    } else if starts_with_str(filename, "Images") {
        Some(Resource::Image(filename.to_string()))
    } else if starts_with_str(filename, "Video") {
        Some(Resource::Video(filename.to_string()))
    } else if starts_with_str(filename, "Texts") {
        Some(Resource::Texts(filename.to_string()))
    } else {
        None
    }
}

/// The resource an atom links to: its percent-encoded body in the folder
/// of its `voice`, `image` or `video` type; none for atoms without body or
/// type, or with another type.
pub open spec fn spec_atom_resource(atom: AtomModel) -> Option<(ResourceCategory, Seq<char>)> {
    match (atom.body, atom.variant) {
        (Some(body), Some(variant)) => if variant == "voice"@ {
            Some((ResourceCategory::Audio, audio_dir() + seq!['/'] + percent_encoded(body)))
        } else if variant == "image"@ {
            Some((ResourceCategory::Image, images_dir() + seq!['/'] + percent_encoded(body)))
        } else if variant == "video"@ {
            Some((ResourceCategory::Video, video_dir() + seq!['/'] + percent_encoded(body)))
        } else {
            None
        },
        _ => None,
    }
}

/// Each media type of an atom has its own folder and category: a `voice`
/// atom links to `Audio/` and the audio category, an `image` atom to
/// `Images/` and the image category, a `video` atom to `Video/` and the
/// video category, each followed by the percent-encoded body; an atom of
/// another type, or without a body, links to nothing. The linked path read
/// back as an archive file name gives the same handle.
pub proof fn law_atom_resource_folders(atom: AtomModel)
    ensures
        atom.body is None ==> spec_atom_resource(atom) is None,
        atom.body is Some && atom.variant == Some("voice"@) ==> spec_atom_resource(atom) == Some(
            (ResourceCategory::Audio, "Audio/"@ + percent_encoded(atom.body->0)),
        ),
        atom.body is Some && atom.variant == Some("image"@) ==> spec_atom_resource(atom) == Some(
            (ResourceCategory::Image, "Images/"@ + percent_encoded(atom.body->0)),
        ),
        atom.body is Some && atom.variant == Some("video"@) ==> spec_atom_resource(atom) == Some(
            (ResourceCategory::Video, "Video/"@ + percent_encoded(atom.body->0)),
        ),
        atom.variant != Some("voice"@) && atom.variant != Some("image"@) && atom.variant != Some(
            "video"@,
        ) ==> spec_atom_resource(atom) is None,
        spec_atom_resource(atom) is Some ==> spec_resource_type((spec_atom_resource(atom)->0).1)
            == spec_atom_resource(atom),
{
    reveal_strlit("voice");
    reveal_strlit("image");
    reveal_strlit("video");
    reveal_strlit("Audio/");
    reveal_strlit("Images/");
    reveal_strlit("Video/");
    assert("Audio/"@ =~= audio_dir() + seq!['/']);
    assert("Images/"@ =~= images_dir() + seq!['/']);
    assert("Video/"@ =~= video_dir() + seq!['/']);
    assert("image"@[0] != "voice"@[0]);
    assert("video"@[2] != "voice"@[2]);
    assert("video"@[0] != "image"@[0]);
    if atom.body is Some && atom.variant is Some {
        let enc = percent_encoded(atom.body->0);
        assert("Images/"@ + enc =~= images_dir() + seq!['/'] + enc);
        assert("Video/"@ + enc =~= video_dir() + seq!['/'] + enc);
        let a = audio_dir() + seq!['/'] + enc;
        let i = images_dir() + seq!['/'] + enc;
        let v = video_dir() + seq!['/'] + enc;
        assert(a.take(5) =~= audio_dir());
        assert(i.take(5) =~= seq!['I', 'm', 'a', 'g', 'e']);
        assert(i.take(6) =~= images_dir());
        assert(v.take(5) =~= video_dir());
        assert(v.take(6) =~= seq!['V', 'i', 'd', 'e', 'o', '/']);
        assert(v.take(5) != audio_dir());
        assert(v.take(6) != images_dir());
        assert(i.take(5) != audio_dir());
    }
}

fn in_folder(dir: &str, name: &str) -> (r: String)
    ensures
        r@ == dir@ + seq!['/'] + name@,
{
    let mut s = String::new();
    push_str(&mut s, dir);
    push_str(&mut s, "/");
    push_str(&mut s, name);
    proof {
        reveal_strlit("/");
    }
    s
}

/// A complete question package in the v5 layout.
///
/// `version` holds the text of the `version` attribute. `resource` maps
/// resource handles to file contents; no handle occurs twice in it.
#[derive(Debug, Clone, PartialEq)]
pub struct PackageV5 {
    pub name: String,
    pub version: String,
    pub id: String,
    pub date: String,
    pub publisher: String,
    pub difficulty: u8,
    pub language: String,
    pub logo: Option<String>,
    pub restriction: String,
    pub namespace: String,
    pub info: InfoV5,
    pub rounds: Vec<RoundV5>,
    pub tags: Vec<String>,
    pub resource: Vec<(Resource, Vec<u8>)>,
}

impl ArchiveKey for Resource {
    open spec fn spec_from_file_name(name: Seq<char>) -> Option<(ResourceCategory, Seq<char>)> {
        spec_resource_type(name)
    }

    open spec fn spec_file_name(key: (ResourceCategory, Seq<char>)) -> Seq<char> {
        key.1
    }

    fn from_file_name(name: &str) -> (r: Option<Self>) {
        get_resource_type(name)
    }

    fn file_name(&self) -> (r: &str) {
        self.extract_key()
    }
}

impl RoundContainer for PackageV5 {
    type Round = RoundV5;

    type RoundsFrame = PackageV5;

    open spec fn spec_rounds(&self) -> Seq<RoundV5> {
        self.rounds@
    }

    open spec fn rounds_frame(&self) -> PackageV5 {
        PackageV5 { rounds: arbitrary(), ..*self }
    }

    fn get_rounds(&self) -> (r: &Vec<RoundV5>) {
        &self.rounds
    }

    fn get_rounds_mut(&mut self) -> (r: &mut Vec<RoundV5>) {
        &mut self.rounds
    }
}

impl PackageV5 {
    /// Reads a package archive held in memory: the text of its
    /// `content.xml`, to be parsed into a package, and its resources. It
    /// fails on bytes that are no zip archive, and succeeds on every
    /// readable package archive.
    pub fn read_zip_buffer(bytes: Vec<u8>) -> (r: Result<(String, Vec<(Resource, Vec<u8>)>), ArchiveError>)
        ensures
            archive_readable::<Resource>(bytes@) ==> r is Ok,
            r is Ok ==> crate::archive::zip_readable(bytes@),
            r is Ok ==> crate::resources::resources_unique(r->Ok_0.1@),
            r is Ok ==> archive_read::<Resource>(bytes@, r->Ok_0.0@, r->Ok_0.1@),
    {
        read_archive::<Resource>(bytes)
    }

    /// The bytes of the package's archive, with `content` (the package
    /// serialized as XML) as `content.xml` and the package's resources. It
    /// succeeds when the files are writable: no two under one name (no
    /// resource under a content file's name), names of at most 16000
    /// characters, contents under 2 GiB each.
    pub fn to_bytes(&self, content: &str) -> (r: Result<Vec<u8>, ArchiveError>)
        ensures
            writable_files(archive_files::<Resource>(content@, self.resource@)) ==> r is Ok,
            r is Ok ==> archive_written::<Resource>(r->Ok_0@, content@, self.resource@),
    {
        write_archive(content, &self.resource)
    }
}

/// `p` is a new, empty package with identifier `id` created on `date`.
pub open spec fn is_new_package(p: PackageV5, id: Seq<char>, date: Seq<char>) -> bool {
    &&& p.name@ == "Новый пакет вопросов"@
    &&& p.version@ == "5"@
    &&& p.id@ == id
    &&& p.date@ == date
    &&& p.publisher@ == Seq::<char>::empty()
    &&& p.difficulty == 5
    &&& p.language@ == Seq::<char>::empty()
    &&& p.logo is None
    &&& p.restriction@ == Seq::<char>::empty()
    &&& p.namespace@ == Seq::<char>::empty()
    &&& p.info@ == empty_info()
    &&& p.rounds@ == Seq::<RoundV5>::empty()
    &&& p.tags@ == Seq::<String>::empty()
    &&& p.resource@ == Seq::<(Resource, Vec<u8>)>::empty()
}

impl PackageV5 {
    /// A new empty package with a random identifier, dated today (UTC).
    pub fn new() -> (r: Self)
        ensures
            uuid_v4_text(r.id@),
            exists|year: i32, month: u32, day: u32|
                1 <= month <= 12 && 1 <= day <= 31 && #[trigger] is_new_package(
                    r,
                    r.id@,
                    date_text(year as int, month as nat, day as nat),
                ),
    {
        let id = random_package_id();
        let (year, month, day) = today_utc();
        let r = Self::new_with_identity(id, year, month, day);
        assert(is_new_package(r, r.id@, date_text(year as int, month as nat, day as nat)));
        r
    }

    /// A new empty package with the given identifier and creation date.
    pub fn new_with_identity(id: String, year: i32, month: u32, day: u32) -> (r: Self)
        ensures
            is_new_package(r, id@, date_text(year as int, month as nat, day as nat)),
    {
        PackageV5 {
            name: "Новый пакет вопросов".to_string(),
            version: "5".to_string(),
            id,
            date: format_date(year, month, day),
            publisher: String::new(),
            difficulty: 5,
            language: String::new(),
            logo: None,
            restriction: String::new(),
            namespace: String::new(),
            info: InfoV5::default(),
            rounds: Vec::new(),
            tags: Vec::new(),
            resource: Vec::new(),
        }
    }

    /// The contents of the resource an atom links to.
    pub fn get_resource(&self, atom: &AtomV5) -> (r: Option<&Vec<u8>>)
        ensures
            spec_atom_resource(atom@) is None ==> r is None,
            spec_atom_resource(atom@) is Some ==> (r is Some <==> resource_map(
                self.resource@,
            ).dom().contains(spec_atom_resource(atom@)->0)),
            r is Some ==> r->0@ == resource_map(self.resource@)[spec_atom_resource(atom@)->0],
    {
        let body = match &atom.body {
            Some(body) => body,
            None => {
                return None;
            },
        };
        let resource_name = percent_encode_name(body.as_str());
        let variant = match &atom.variant {
            Some(variant) => variant.as_str(),
            None => {
                return None;
            },
        };
        proof {
            reveal_strlit("voice");
            reveal_strlit("image");
            reveal_strlit("video");
            reveal_strlit("Audio");
            reveal_strlit("Images");
            reveal_strlit("Video");
            assert("Audio"@ == audio_dir());
            assert("Images"@ == images_dir());
            assert("Video"@ == video_dir());
        }
        let key = if str_eq(variant, "voice") {
            Resource::Audio(in_folder("Audio", resource_name.as_str()))
        } else if str_eq(variant, "image") {
            Resource::Image(in_folder("Images", resource_name.as_str()))
        } else if str_eq(variant, "video") {
            Resource::Video(in_folder("Video", resource_name.as_str()))
        } else {
            return None;
        };
        find_resource(&self.resource, &key)
    }
}

} // verus!
