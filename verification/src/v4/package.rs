//! The v4 package: metadata, the round tree and binary resources.
use vstd::prelude::*;
use crate::node::{QuestionIdx, RoundIdx, ThemeIdx};
use crate::package_trait::{
    QuestionsContainer, RoundContainer, ThemesContainer, elem_at, question_duplicated, round_of,
    round_duplicated, theme_duplicated, theme_of,
};
use crate::resources::{ResourceKey, find_resource, resource_map};
use crate::identity::{date_text, format_date, random_package_id, today_utc, uuid_v4_text};
use crate::text::str_eq;
use crate::archive::{
    ArchiveError, ArchiveKey, archive_files, archive_read, archive_readable, archive_written,
    law_read_after_write, law_written_archive_is_readable, portable_resource_name, read_archive,
    read_with_slash,
    writable_files, write_archive, xml_declaration,
};
use crate::v4::atom::{Atomv4, ResourceIdModel, ResourceIdv4, spec_atom_resource, spec_try_new};
use crate::v4::components::{InfoModel, Infov4, Questionv4, Roundv4, Themev4, empty_info};

verus! {

/// A complete question package: attributes, metadata, rounds, tags and the
/// resources (files) stored next to the content in the archive.
///
/// `version` holds the text of the `version` attribute. `resource` maps
/// resource handles to file contents; no handle occurs twice in it
/// ([`resources_unique`]).
#[derive(Debug, Clone, PartialEq)]
pub struct Packagev4 {
    pub name: String,
    pub version: String,
    pub id: String,
    pub date: String,
    pub publisher: String,
    pub difficulty: u8,
    pub language: String,
    pub logo: Option<String>,
    pub restriction: String,
    pub namespace: String,
    pub info: Infov4,
    pub rounds: Vec<Roundv4>,
    pub tags: Vec<String>,
    pub resource: Vec<(ResourceIdv4, Vec<u8>)>,
}

impl ResourceKey for ResourceIdv4 {
    fn same_key(&self, other: &Self) -> (r: bool) {
        let same_category = match (self, other) {
            (ResourceIdv4::Audio(_), ResourceIdv4::Audio(_)) => true,
            (ResourceIdv4::Video(_), ResourceIdv4::Video(_)) => true,
            (ResourceIdv4::Image(_), ResourceIdv4::Image(_)) => true,
            (ResourceIdv4::Texts(_), ResourceIdv4::Texts(_)) => true,
            _ => false,
        };
        same_category && str_eq(self.path(), other.path()) && str_eq(self.name(), other.name())
    }
}

impl ArchiveKey for ResourceIdv4 {
    open spec fn spec_from_file_name(name: Seq<char>) -> Option<ResourceIdModel> {
        spec_try_new(name)
    }

    open spec fn spec_file_name(key: ResourceIdModel) -> Seq<char> {
        key.path
    }

    fn from_file_name(name: &str) -> (r: Option<Self>) {
        Self::try_new(name)
    }

    fn file_name(&self) -> (r: &str) {
        self.path()
    }
}

impl RoundContainer for Packagev4 {
    type Round = Roundv4;

    type RoundsFrame = Packagev4;

    open spec fn spec_rounds(&self) -> Seq<Roundv4> {
        self.rounds@
    }

    open spec fn rounds_frame(&self) -> Packagev4 {
        Packagev4 { rounds: arbitrary(), ..*self }
    }

    fn get_rounds(&self) -> (r: &Vec<Roundv4>) {
        &self.rounds
    }

    fn get_rounds_mut(&mut self) -> (r: &mut Vec<Roundv4>) {
        &mut self.rounds
    }
}

impl Packagev4 {
    /// The contents of the resource an atom links to.
    pub fn get_resource(&self, atom: &Atomv4) -> (r: Option<&Vec<u8>>)
        ensures
            spec_atom_resource(atom@) is None ==> r is None,
            spec_atom_resource(atom@) is Some ==> (r is Some <==> resource_map(
                self.resource@,
            ).dom().contains(spec_atom_resource(atom@)->0)),
            r is Some ==> r->0@ == resource_map(self.resource@)[spec_atom_resource(atom@)->0],
    {
        match atom.resource() {
            Some(id) => find_resource(&self.resource, &id),
            None => None,
        }
    }
}

impl Packagev4 {
    /// Reads a package archive held in memory: the text of its
    /// `content.xml`, to be parsed into a package, and its resources. It
    /// fails on bytes that are no zip archive, and succeeds on every
    /// readable package archive.
    pub fn read_zip_buffer(bytes: Vec<u8>) -> (r: Result<
        (String, Vec<(ResourceIdv4, Vec<u8>)>),
        ArchiveError,
    >)
        ensures
            archive_readable::<ResourceIdv4>(bytes@) ==> r is Ok,
            r is Ok ==> crate::archive::zip_readable(bytes@),
            r is Ok ==> crate::resources::resources_unique(r->Ok_0.1@),
            r is Ok ==> archive_read::<ResourceIdv4>(bytes@, r->Ok_0.0@, r->Ok_0.1@),
    {
        read_archive::<ResourceIdv4>(bytes)
    }

    /// The bytes of the package's archive, with `content` (the package
    /// serialized as XML) as `content.xml` and the package's resources. It
    /// succeeds when the files are writable: no two under one name (no
    /// resource under a content file's name), names of at most 16000
    /// characters, contents under 2 GiB each.
    pub fn to_bytes(&self, content: &str) -> (r: Result<Vec<u8>, ArchiveError>)
        ensures
            writable_files(archive_files::<ResourceIdv4>(content@, self.resource@)) ==> r is Ok,
            r is Ok ==> archive_written::<ResourceIdv4>(r->Ok_0@, content@, self.resource@),
    {
        write_archive(content, &self.resource)
    }
}

/// `p` is a new, empty package with identifier `id` created on `date`.
pub open spec fn is_new_package(p: Packagev4, id: Seq<char>, date: Seq<char>) -> bool {
    &&& p.name@ == "Новый пакет вопросов"@
    &&& p.version@ == "5"@
    &&& p.id@ == id
    &&& p.date@ == date
    &&& p.publisher@ == Seq::<char>::empty()
    &&& p.difficulty == 5
    &&& p.language@ == Seq::<char>::empty()
    &&& p.logo is None
    &&& p.restriction@ == Seq::<char>::empty()
    &&& p.namespace@ == Seq::<char>::empty()
    &&& p.info@ == empty_info()
    &&& p.rounds@ == Seq::<Roundv4>::empty()
    &&& p.tags@ == Seq::<String>::empty()
    &&& p.resource@ == Seq::<(ResourceIdv4, Vec<u8>)>::empty()
}

impl Packagev4 {
    /// A new empty package with a random identifier, dated today (UTC).
    pub fn new() -> (r: Self)
        ensures
            uuid_v4_text(r.id@),
            exists|year: i32, month: u32, day: u32|
                1 <= month <= 12 && 1 <= day <= 31 && #[trigger] is_new_package(
                    r,
                    r.id@,
                    date_text(year as int, month as nat, day as nat),
                ),
    {
        let id = random_package_id();
        let (year, month, day) = today_utc();
        let r = Self::new_with_identity(id, year, month, day);
        assert(is_new_package(r, r.id@, date_text(year as int, month as nat, day as nat)));
        r
    }

    /// A new empty package with the given identifier and creation date.
    pub fn new_with_identity(id: String, year: i32, month: u32, day: u32) -> (r: Self)
        ensures
            is_new_package(r, id@, date_text(year as int, month as nat, day as nat)),
    {
        Packagev4 {
            name: "Новый пакет вопросов".to_string(),
            version: "5".to_string(),
            id,
            date: format_date(year, month, day),
            publisher: String::new(),
            difficulty: 5,
            language: String::new(),
            logo: None,
            restriction: String::new(),
            namespace: String::new(),
            info: Infov4::default(),
            rounds: Vec::new(),
            tags: Vec::new(),
            resource: Vec::new(),
        }
    }
}

/// Duplicating a round of a v4 package inserts, right after it, a round
/// that equals it by value.
pub proof fn law_duplicate_round_copies_value(before: Packagev4, after: Packagev4, idx: RoundIdx)
    requires
        round_duplicated(before, after, idx),
        idx.index < before.rounds@.len(),
    ensures
        after.rounds@[idx.index + 1]@ == before.rounds@[idx.index as int]@,
{
    let rounds = before.spec_rounds();
    let c = choose|c: Roundv4|
        #[trigger] cloned(rounds[idx.index as int], c) && after.spec_rounds() == rounds.insert(
            idx.index + 1,
            c,
        );
    assert(after.rounds@[idx.index + 1] == c);
}

/// Duplicating a theme of a v4 package inserts, right after it, a theme
/// that equals it by value.
pub proof fn law_duplicate_theme_copies_value(before: Packagev4, after: Packagev4, idx: ThemeIdx)
    requires
        theme_duplicated(before, after, idx),
        elem_at(before.spec_themes(round_of(idx)), idx.index) is Some,
        idx.index < usize::MAX,
    ensures
        elem_at(after.spec_themes(round_of(idx)), (idx.index + 1) as usize)->0@ == elem_at(
            before.spec_themes(round_of(idx)),
            idx.index,
        )->0@,
{
    let r = round_of(idx);
    let theme = elem_at(before.spec_themes(r), idx.index)->0;
    let themes = before.spec_themes(r)->0;
    let c = choose|c: Themev4|
        #[trigger] cloned(theme, c) && after.spec_themes(r) == Some(themes.insert(idx.index + 1, c));
    assert(themes.insert(idx.index + 1, c)[idx.index + 1] == c);
}

/// Duplicating a question of a v4 package inserts, right after it, a
/// question that equals it by value.
pub proof fn law_duplicate_question_copies_value(
    before: Packagev4,
    after: Packagev4,
    idx: QuestionIdx,
)
    requires
        question_duplicated(before, after, idx),
        elem_at(before.spec_questions(theme_of(idx)), idx.index) is Some,
        idx.index < usize::MAX,
    ensures
        elem_at(after.spec_questions(theme_of(idx)), (idx.index + 1) as usize)->0@ == elem_at(
            before.spec_questions(theme_of(idx)),
            idx.index,
        )->0@,
{
    let t = theme_of(idx);
    let question = elem_at(before.spec_questions(t), idx.index)->0;
    let questions = before.spec_questions(t)->0;
    let c = choose|c: Questionv4|
        #[trigger] cloned(question, c) && after.spec_questions(t) == Some(
            questions.insert(idx.index + 1, c),
        );
    assert(questions.insert(idx.index + 1, c)[idx.index + 1] == c);
}

/// Saving a package gives an archive that reads back, and reading it back
/// on a platform whose path separator is `/` gives the content that was
/// saved, after the XML declaration, and the package's resources, when
/// every resource handle is one that its path parses to and that path is
/// portable.
pub proof fn law_resave_keeps_resources(package: Packagev4, content: Seq<char>, bytes: Seq<u8>)
    requires
        forall|i: int|
            0 <= i < package.resource@.len() ==> portable_resource_name(
                (#[trigger] package.resource@[i]).0@.path,
            ) && spec_try_new(package.resource@[i].0@.path) == Some(package.resource@[i].0@),
        archive_written::<ResourceIdv4>(bytes, content, package.resource@),
    ensures
        archive_readable::<ResourceIdv4>(bytes),
        forall|text: Seq<char>, read: Seq<(ResourceIdv4, Vec<u8>)>, names: Seq<Option<Seq<char>>>|
            #[trigger] archive_read::<ResourceIdv4>(bytes, text, read) && #[trigger] read_with_slash::<
                ResourceIdv4,
            >(bytes, read, names) ==> text == xml_declaration() + content && resource_map(read)
                == resource_map(package.resource@),
{
    let resources = package.resource@;
    assert forall|i: int| 0 <= i < resources.len() implies portable_resource_name(
        ResourceIdv4::spec_file_name(#[trigger] resources[i].0@),
    ) && ResourceIdv4::spec_from_file_name(ResourceIdv4::spec_file_name(resources[i].0@)) == Some(
        resources[i].0@,
    ) by {
        assert(package.resource@[i] == resources[i]);
    }
    assert forall|i: int| 0 <= i < resources.len() implies ResourceIdv4::spec_file_name(
        #[trigger] resources[i].0@,
    ) != crate::archive::content_file() by {
        crate::archive::lemma_resource_name_is_not_content(
            ResourceIdv4::spec_file_name(resources[i].0@),
        );
    }
    law_written_archive_is_readable::<ResourceIdv4>(content, resources, bytes);
    assert forall|text: Seq<char>, read: Seq<(ResourceIdv4, Vec<u8>)>, names: Seq<Option<Seq<char>>>|
        #[trigger] archive_read::<ResourceIdv4>(bytes, text, read) && #[trigger] read_with_slash::<
            ResourceIdv4,
        >(bytes, read, names) implies text == xml_declaration() + content && resource_map(read)
        == resource_map(package.resource@) by {
        law_read_after_write::<ResourceIdv4>(content, resources, bytes, text, read, names);
    }
}

} // verus!
