//! Scenario atoms and typed resource handles of the v4 format.
use std::sync::Arc;
use vstd::prelude::*;
use crate::encoding::{percent_encode_name, percent_encoded};
use crate::text::{find_char, is_first, push_char, push_str, starts_with_char, str_eq};

verus! {

/// Kind of a scenario atom.
#[derive(Clone, Copy, Debug, PartialEq, Eq, Structural)]
pub enum AtomKindv4 {
    Image,
    Voice,
    Video,
    Text,
}

impl Default for AtomKindv4 {
    fn default() -> (r: Self)
        ensures
            r == AtomKindv4::Text,
    {
        AtomKindv4::Text
    }
}

impl AtomKindv4 {
    /// Whether the atom is plain text.
    pub fn is_text(&self) -> (r: bool)
        ensures
            r == (*self == AtomKindv4::Text),
    {
        matches!(self, AtomKindv4::Text)
    }
}

/// One piece of a question's scenario: text, or a link to a resource.
/// `time` holds the text of the optional `time` attribute (seconds).
#[derive(Debug, PartialEq)]
pub struct Atomv4 {
    pub time: Option<String>,
    pub kind: AtomKindv4,
    pub body: String,
}

/// Value view of an atom.
pub struct AtomModel {
    pub time: Option<Seq<char>>,
    pub kind: AtomKindv4,
    pub body: Seq<char>,
}

/// View of an optional string.
pub open spec fn opt_str(s: Option<String>) -> Option<Seq<char>> {
    match s {
        Some(s) => Some(s@),
        None => None,
    }
}

impl View for Atomv4 {
    type V = AtomModel;

    open spec fn view(&self) -> AtomModel {
        AtomModel { time: opt_str(self.time), kind: self.kind, body: self.body@ }
    }
}

impl Clone for Atomv4 {
    fn clone(&self) -> (r: Self)
        ensures
            r@ == self@,
    {
        Atomv4 { time: self.time.clone(), kind: self.kind, body: self.body.clone() }
    }
}

impl Default for Atomv4 {
    fn default() -> (r: Self)
        ensures
            r.time is None,
            r.kind == AtomKindv4::Text,
            r.body@ == Seq::<char>::empty(),
    {
        Atomv4 { time: None, kind: AtomKindv4::Text, body: String::new() }
    }
}

/// Typed resource handle: the full path inside the archive (e.g.
/// `Images/@joker.png`) and the name part (e.g. `@joker.png`).
#[derive(Debug, Clone, PartialEq, Eq, Hash)]
pub enum ResourceIdv4 {
    Audio(Arc<(String, String)>),
    Video(Arc<(String, String)>),
    Image(Arc<(String, String)>),
    Texts(Arc<(String, String)>),
}

/// Category of a resource, by the folder it is stored in.
pub enum ResourceCategory {
    Audio,
    Video,
    Image,
    Texts,
}

/// Value view of a resource handle: category, full path and name.
pub struct ResourceIdModel {
    pub category: ResourceCategory,
    pub path: Seq<char>,
    pub name: Seq<char>,
}

impl View for ResourceIdv4 {
    type V = ResourceIdModel;

    open spec fn view(&self) -> ResourceIdModel {
        match self {
            ResourceIdv4::Audio(d) => ResourceIdModel {
                category: ResourceCategory::Audio,
                path: d.0@,
                name: d.1@,
            },
            ResourceIdv4::Video(d) => ResourceIdModel {
                category: ResourceCategory::Video,
                path: d.0@,
                name: d.1@,
            },
            ResourceIdv4::Image(d) => ResourceIdModel {
                category: ResourceCategory::Image,
                path: d.0@,
                name: d.1@,
            },
            ResourceIdv4::Texts(d) => ResourceIdModel {
                category: ResourceCategory::Texts,
                path: d.0@,
                name: d.1@,
            },
        }
    }
}

/// `Audio`
pub open spec fn audio_dir() -> Seq<char> {
    seq!['A', 'u', 'd', 'i', 'o']
}

/// `Video`
pub open spec fn video_dir() -> Seq<char> {
    seq!['V', 'i', 'd', 'e', 'o']
}

/// `Images`
pub open spec fn images_dir() -> Seq<char> {
    seq!['I', 'm', 'a', 'g', 'e', 's']
}

/// `Texts`
pub open spec fn texts_dir() -> Seq<char> {
    seq!['T', 'e', 'x', 't', 's']
}

/// The category stored in folder `dir`, if any.
pub open spec fn category_of_dir(dir: Seq<char>) -> Option<ResourceCategory> {
    if dir == audio_dir() {
        Some(ResourceCategory::Audio)
    } else if dir == images_dir() {
        Some(ResourceCategory::Image)
    } else if dir == video_dir() {
        Some(ResourceCategory::Video)
    } else if dir == texts_dir() {
        Some(ResourceCategory::Texts)
    } else {
        None
    }
}

/// `name` with a leading `@` added unless it already has one.
pub open spec fn at_prefixed(name: Seq<char>) -> Seq<char> {
    if name.len() > 0 && name[0] == '@' {
        name
    } else {
        seq!['@'] + name
    }
}

/// The handle that `path` (`<folder>/<name>`) denotes: split at the first
/// `/`, the folder chooses the category, the name gets a leading `@`.
pub open spec fn spec_try_new(path: Seq<char>) -> Option<ResourceIdModel> {
    if exists|i: int| is_first(path, '/', i) {
        let i = choose|i: int| is_first(path, '/', i);
        let dir = path.take(i);
        let name = at_prefixed(path.skip(i + 1));
        match category_of_dir(dir) {
            Some(category) => Some(
                ResourceIdModel { category, path: dir + seq!['/'] + name, name },
            ),
            None => None,
        }
    } else {
        None
    }
}

/// The handle of resource `name` stored in folder `dir`.
pub open spec fn resource_in(category: ResourceCategory, dir: Seq<char>, name: Seq<char>) -> ResourceIdModel {
    ResourceIdModel {
        category,
        path: dir + seq!['/'] + at_prefixed(name),
        name: at_prefixed(name),
    }
}

proof fn lemma_first_slash_after_dir(dir: Seq<char>, name: Seq<char>)
    requires
        forall|j: int| 0 <= j < dir.len() ==> dir[j] != '/',
    ensures
        is_first(dir + seq!['/'] + name, '/', dir.len() as int),
        forall|i: int| is_first(dir + seq!['/'] + name, '/', i) ==> i == dir.len(),
        (dir + seq!['/'] + name).take(dir.len() as int) == dir,
        (dir + seq!['/'] + name).skip(dir.len() as int + 1) == name,
{
    let p = dir + seq!['/'] + name;
    assert(p.take(dir.len() as int) =~= dir);
    assert(p.skip(dir.len() as int + 1) =~= name);
    assert forall|i: int| is_first(p, '/', i) implies i == dir.len() by {
        if i < dir.len() {
            assert(p[i] == dir[i]);
        } else if i > dir.len() {
            assert(p[dir.len() as int] == '/');
        }
    }
}

/// A handle name, already prefixed with `@`, is left as it is.
proof fn lemma_at_prefixed_idempotent(name: Seq<char>)
    ensures
        at_prefixed(at_prefixed(name)) == at_prefixed(name),
{
    if !(name.len() > 0 && name[0] == '@') {
        assert((seq!['@'] + name)[0] == '@');
    }
}

/// A folder name has no `/`.
proof fn lemma_folder_has_no_slash(dir: Seq<char>)
    requires
        category_of_dir(dir) is Some,
    ensures
        forall|j: int| 0 <= j < dir.len() ==> dir[j] != '/',
{
}

/// The handle of a folder and a name is what its path parses to.
pub proof fn law_resource_in_parses_back(category: ResourceCategory, dir: Seq<char>, name: Seq<char>)
    requires
        category_of_dir(dir) == Some(category),
    ensures
        spec_try_new(resource_in(category, dir, name).path) == Some(
            resource_in(category, dir, name),
        ),
{
    let named = at_prefixed(name);
    lemma_folder_has_no_slash(dir);
    lemma_first_slash_after_dir(dir, named);
    lemma_at_prefixed_idempotent(name);
}

/// Parsing the path of the handle that a path denotes gives that handle
/// again: a handle's path and the handle determine each other.
pub proof fn law_try_new_path_parses_back(path: Seq<char>)
    requires
        spec_try_new(path) is Some,
    ensures
        spec_try_new(spec_try_new(path)->0.path) == spec_try_new(path),
{
    let i = choose|i: int| is_first(path, '/', i);
    let dir = path.take(i);
    let category = category_of_dir(dir)->0;
    assert forall|j: int| 0 <= j < dir.len() implies dir[j] != '/' by {
        assert(dir[j] == path[j]);
    }
    assert(spec_try_new(path)->0 == resource_in(category, dir, path.skip(i + 1)));
    law_resource_in_parses_back(category, dir, path.skip(i + 1));
}

impl ResourceIdv4 {
    /// Handle of audio resource `path` (`Audio/<path>`).
    pub fn audio(path: &str) -> (r: Self)
        ensures
            r@ == resource_in(ResourceCategory::Audio, audio_dir(), path@),
    {
        proof {
            reveal_strlit("Audio");
            assert("Audio"@ == audio_dir());
        }
        Self::in_dir("Audio", path)
    }

    /// Handle of video resource `path` (`Video/<path>`).
    pub fn video(path: &str) -> (r: Self)
        ensures
            r@ == resource_in(ResourceCategory::Video, video_dir(), path@),
    {
        proof {
            reveal_strlit("Video");
            assert("Video"@ == video_dir());
        }
        Self::in_dir("Video", path)
    }

    /// Handle of image resource `path` (`Images/<path>`).
    pub fn image(path: &str) -> (r: Self)
        ensures
            r@ == resource_in(ResourceCategory::Image, images_dir(), path@),
    {
        proof {
            reveal_strlit("Images");
            assert("Images"@ == images_dir());
        }
        Self::in_dir("Images", path)
    }

    /// Handle of text resource `path` (`Texts/<path>`).
    pub fn texts(path: &str) -> (r: Self)
        ensures
            r@ == resource_in(ResourceCategory::Texts, texts_dir(), path@),
    {
        proof {
            reveal_strlit("Texts");
            assert("Texts"@ == texts_dir());
        }
        Self::in_dir("Texts", path)
    }

    fn in_dir(dir: &str, path: &str) -> (r: Self)
        requires
            category_of_dir(dir@) is Some,
        ensures
            r@ == resource_in(category_of_dir(dir@)->0, dir@, path@),
    {
        let mut full = String::new();
        push_str(&mut full, dir);
        push_char(&mut full, '/');
        push_str(&mut full, path);
        proof {
            reveal_strlit("Audio");
            reveal_strlit("Video");
            reveal_strlit("Images");
            reveal_strlit("Texts");
            assert(forall|j: int| 0 <= j < dir@.len() ==> dir@[j] != '/');
            assert(full@ == dir@ + seq!['/'] + path@);
            lemma_first_slash_after_dir(dir@, path@);
        }
        let r = Self::try_new(full.as_str());
        r.unwrap()
    }

    /// Parses `<folder>/<name>` into a handle; `None` when there is no `/`
    /// or the folder is not one of `Audio`, `Images`, `Video`, `Texts`.
    pub fn try_new(path: &str) -> (r: Option<Self>)
        ensures
            r is Some <==> spec_try_new(path@) is Some,
            r is Some ==> r->0@ == spec_try_new(path@)->0,
    {
        let slash = match find_char(path, '/') {
            Some(i) => i,
            None => {
                return None;
            },
        };
        let len = path.unicode_len();
        let dir = path.substring_char(0, slash);
        let rest = path.substring_char(slash + 1, len);
        let mut name = String::new();
        if !starts_with_char(rest, '@') {
            push_char(&mut name, '@');
        }
        push_str(&mut name, rest);
        let mut full = String::new();
        push_str(&mut full, dir);
        push_char(&mut full, '/');
        push_str(&mut full, name.as_str());
        proof {
            reveal_strlit("Audio");
            reveal_strlit("Video");
            reveal_strlit("Images");
            reveal_strlit("Texts");
            assert(is_first(path@, '/', slash as int));
            assert forall|i: int| is_first(path@, '/', i) implies i == slash by {
                if i < slash {
                    assert(path@[i] != '/');
                } else if i > slash {
                    assert(path@[slash as int] == '/');
                }
            }
            assert(dir@ == path@.take(slash as int));
            assert(rest@ == path@.skip(slash + 1));
            assert(name@ == at_prefixed(rest@));
            let i = choose|i: int| is_first(path@, '/', i);
            assert(i == slash);
            assert("Audio"@ == audio_dir());
            assert("Video"@ == video_dir());
            assert("Images"@ == images_dir());
            assert("Texts"@ == texts_dir());
            assert(full@ == dir@ + seq!['/'] + name@);
        }
        let pair = Arc::new((full, name));
        if str_eq(dir, "Audio") {
            Some(ResourceIdv4::Audio(pair))
        } else if str_eq(dir, "Images") {
            Some(ResourceIdv4::Image(pair))
        } else if str_eq(dir, "Video") {
            Some(ResourceIdv4::Video(pair))
        } else if str_eq(dir, "Texts") {
            Some(ResourceIdv4::Texts(pair))
        } else {
            None
        }
    }

    /// Full resource path, e.g. `Images/@joker.png`.
    pub fn path(&self) -> (r: &str)
        ensures
            r@ == self@.path,
    {
        match self {
            ResourceIdv4::Audio(data) => data.0.as_str(),
            ResourceIdv4::Video(data) => data.0.as_str(),
            ResourceIdv4::Image(data) => data.0.as_str(),
            ResourceIdv4::Texts(data) => data.0.as_str(),
        }
    }

    /// Only the name part of the resource, e.g. `@joker.png`.
    pub fn name(&self) -> (r: &str)
        ensures
            r@ == self@.name,
    {
        match self {
            ResourceIdv4::Audio(data) => data.1.as_str(),
            ResourceIdv4::Video(data) => data.1.as_str(),
            ResourceIdv4::Image(data) => data.1.as_str(),
            ResourceIdv4::Texts(data) => data.1.as_str(),
        }
    }
}

/// The resource an atom links to: none for text atoms, otherwise the
/// percent-encoded body in the folder of the atom's kind.
pub open spec fn spec_atom_resource(atom: AtomModel) -> Option<ResourceIdModel> {
    match atom.kind {
        AtomKindv4::Image => Some(
            resource_in(ResourceCategory::Image, images_dir(), percent_encoded(atom.body)),
        ),
        AtomKindv4::Video => Some(
            resource_in(ResourceCategory::Video, video_dir(), percent_encoded(atom.body)),
        ),
        AtomKindv4::Voice => Some(
            resource_in(ResourceCategory::Audio, audio_dir(), percent_encoded(atom.body)),
        ),
        AtomKindv4::Text => None,
    }
}

impl Atomv4 {
    /// The resource this atom links to, if it is not a text atom.
    pub fn resource(&self) -> (r: Option<ResourceIdv4>)
        ensures
            r is Some <==> spec_atom_resource(self@) is Some,
            r is Some ==> r->0@ == spec_atom_resource(self@)->0,
    {
        if self.kind.is_text() {
            return None;
        }
        let resource_name = percent_encode_name(self.body.as_str());
        let resource = match self.kind {
            AtomKindv4::Image => ResourceIdv4::image(resource_name.as_str()),
            AtomKindv4::Video => ResourceIdv4::video(resource_name.as_str()),
            AtomKindv4::Voice => ResourceIdv4::audio(resource_name.as_str()),
            AtomKindv4::Text => {
                return None;
            },
        };
        Some(resource)
    }
}

} // verus!
