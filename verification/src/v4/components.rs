//! Rounds, themes, questions and their metadata in the v4 format.
use vstd::prelude::*;
use crate::node::{RoundIdx, ThemeIdx};
use crate::package_trait::{
    QuestionBase, QuestionsContainer, RoundBase, ThemeBase, ThemesContainer,
};
use crate::v4::atom::{AtomModel, Atomv4, opt_str};

verus! {

/// Views of a sequence of strings.
pub open spec fn strs(v: Seq<String>) -> Seq<Seq<char>> {
    v.map_values(|s: String| s@)
}

/// Views of a sequence of atoms.
pub open spec fn atoms(v: Seq<Atomv4>) -> Seq<AtomModel> {
    v.map_values(|a: Atomv4| a@)
}

/// Optional metadata of a package, round, theme or question.
#[derive(Debug, PartialEq)]
pub struct Infov4 {
    pub comments: String,
    pub extension: String,
    pub authors: Vec<String>,
    pub sources: Vec<String>,
}

/// Value view of [`Infov4`].
pub struct InfoModel {
    pub comments: Seq<char>,
    pub extension: Seq<char>,
    pub authors: Seq<Seq<char>>,
    pub sources: Seq<Seq<char>>,
}

impl View for Infov4 {
    type V = InfoModel;

    open spec fn view(&self) -> InfoModel {
        InfoModel {
            comments: self.comments@,
            extension: self.extension@,
            authors: strs(self.authors@),
            sources: strs(self.sources@),
        }
    }
}

/// View of optional metadata.
pub open spec fn opt_info(i: Option<Infov4>) -> Option<InfoModel> {
    match i {
        Some(i) => Some(i@),
        None => None,
    }
}

/// Metadata with every field empty.
pub open spec fn empty_info() -> InfoModel {
    InfoModel {
        comments: Seq::empty(),
        extension: Seq::empty(),
        authors: Seq::empty(),
        sources: Seq::empty(),
    }
}

impl Clone for Infov4 {
    fn clone(&self) -> (r: Self)
        ensures
            r@ == self@,
    {
        let authors = self.authors.clone();
        let sources = self.sources.clone();
        assert(authors@ == self.authors@);
        assert(sources@ == self.sources@);
        Infov4 {
            comments: self.comments.clone(),
            extension: self.extension.clone(),
            authors,
            sources,
        }
    }
}

impl Default for Infov4 {
    fn default() -> (r: Self)
        ensures
            r@ == empty_info(),
    {
        let r = Infov4 {
            comments: String::new(),
            extension: String::new(),
            authors: Vec::new(),
            sources: Vec::new(),
        };
        assert(strs(r.authors@) =~= Seq::<Seq<char>>::empty());
        assert(strs(r.sources@) =~= Seq::<Seq<char>>::empty());
        assert(r@ == empty_info());
        r
    }
}

fn clone_opt_info(i: &Option<Infov4>) -> (r: Option<Infov4>)
    ensures
        opt_info(r) == opt_info(*i),
{
    match i {
        Some(info) => Some(info.clone()),
        None => None,
    }
}

/// A named parameter of a question type.
#[derive(Debug, Default, PartialEq)]
pub struct Paramv4 {
    pub name: String,
    pub body: Option<String>,
}

/// Value view of [`Paramv4`].
pub struct ParamModel {
    pub name: Seq<char>,
    pub body: Option<Seq<char>>,
}

impl View for Paramv4 {
    type V = ParamModel;

    open spec fn view(&self) -> ParamModel {
        ParamModel { name: self.name@, body: opt_str(self.body) }
    }
}

impl Clone for Paramv4 {
    fn clone(&self) -> (r: Self)
        ensures
            r@ == self@,
    {
        Paramv4 { name: self.name.clone(), body: self.body.clone() }
    }
}

/// Views of optional parameters.
pub open spec fn opt_params(p: Option<Vec<Paramv4>>) -> Option<Seq<ParamModel>> {
    match p {
        Some(v) => Some(v@.map_values(|x: Paramv4| x@)),
        None => None,
    }
}

/// Type of a question (`simple`, `auction`, `cat`, ...) with parameters.
#[derive(Debug, PartialEq)]
pub struct QuestionTypev4 {
    pub name: String,
    pub params: Option<Vec<Paramv4>>,
}

/// Value view of [`QuestionTypev4`].
pub struct QuestionTypeModel {
    pub name: Seq<char>,
    pub params: Option<Seq<ParamModel>>,
}

impl View for QuestionTypev4 {
    type V = QuestionTypeModel;

    open spec fn view(&self) -> QuestionTypeModel {
        QuestionTypeModel { name: self.name@, params: opt_params(self.params) }
    }
}

impl Clone for QuestionTypev4 {
    fn clone(&self) -> (r: Self)
        ensures
            r@ == self@,
    {
        let params = match &self.params {
            Some(v) => {
                let c = v.clone();
                assert(c@.map_values(|x: Paramv4| x@) =~= v@.map_values(|x: Paramv4| x@)) by {
                    assert forall|i: int| 0 <= i < c@.len() implies #[trigger] c@[i]@ == v@[i]@ by {
                        assert(cloned(v@[i], c@[i]));
                    }
                }
                Some(c)
            },
            None => None,
        };
        QuestionTypev4 { name: self.name.clone(), params }
    }
}

impl Default for QuestionTypev4 {
    fn default() -> (r: Self)
        ensures
            r@ == (QuestionTypeModel { name: Seq::empty(), params: None }),
    {
        QuestionTypev4 { name: String::new(), params: None }
    }
}

impl QuestionTypev4 {
    /// Human-readable (Russian) name of the question type.
    pub fn display_name(&self) -> (r: &'static str)
        ensures
            r@ == question_type_label(self.name@),
    {
        proof {
            reveal_strlit("simple");
            reveal_strlit("");
            reveal_strlit("auction");
            reveal_strlit("cat");
            reveal_strlit("bagcat");
            reveal_strlit("sponsored");
        }
        let name = self.name.as_str();
        if crate::text::str_eq(name, "simple") || crate::text::str_eq(name, "") {
            "Обычный вопрос"
        } else if crate::text::str_eq(name, "auction") {
            "Вопрос со ставкой"
        } else if crate::text::str_eq(name, "cat") {
            "Вопрос с секретом"
        } else if crate::text::str_eq(name, "bagcat") {
            "Обобщённый Вопрос с секретом"
        } else if crate::text::str_eq(name, "sponsored") {
            "Вопрос без риска"
        } else {
            "Неизвестно"
        }
    }
}

/// The label shown for a question type name.
pub open spec fn question_type_label(name: Seq<char>) -> Seq<char> {
    if name == "simple"@ || name == ""@ {
        "Обычный вопрос"@
    } else if name == "auction"@ {
        "Вопрос со ставкой"@
    } else if name == "cat"@ {
        "Вопрос с секретом"@
    } else if name == "bagcat"@ {
        "Обобщённый Вопрос с секретом"@
    } else if name == "sponsored"@ {
        "Вопрос без риска"@
    } else {
        "Неизвестно"@
    }
}

/// A question: price, type, scenario atoms and right/wrong answers.
#[derive(Debug, PartialEq)]
pub struct Questionv4 {
    pub price: usize,
    pub question_type: QuestionTypev4,
    pub scenario: Vec<Atomv4>,
    pub right: Vec<String>,
    pub wrong: Vec<String>,
    pub info: Option<Infov4>,
}

/// Value view of [`Questionv4`].
pub struct QuestionModel {
    pub price: usize,
    pub question_type: QuestionTypeModel,
    pub scenario: Seq<AtomModel>,
    pub right: Seq<Seq<char>>,
    pub wrong: Seq<Seq<char>>,
    pub info: Option<InfoModel>,
}

impl View for Questionv4 {
    type V = QuestionModel;

    open spec fn view(&self) -> QuestionModel {
        QuestionModel {
            price: self.price,
            question_type: self.question_type@,
            scenario: atoms(self.scenario@),
            right: strs(self.right@),
            wrong: strs(self.wrong@),
            info: opt_info(self.info),
        }
    }
}

/// Views of a sequence of questions.
pub open spec fn questions_view(v: Seq<Questionv4>) -> Seq<QuestionModel> {
    v.map_values(|q: Questionv4| q@)
}

/// The view of a new question with the given price.
pub open spec fn new_question(price: usize) -> QuestionModel {
    QuestionModel {
        price,
        question_type: QuestionTypeModel { name: Seq::empty(), params: None },
        scenario: Seq::empty(),
        right: Seq::empty(),
        wrong: Seq::empty(),
        info: None,
    }
}

impl Clone for Questionv4 {
    fn clone(&self) -> (r: Self)
        ensures
            r@ == self@,
    {
        let scenario = self.scenario.clone();
        assert(atoms(scenario@) =~= atoms(self.scenario@)) by {
            assert forall|i: int| 0 <= i < scenario@.len() implies #[trigger] scenario@[i]@
                == self.scenario@[i]@ by {
                assert(cloned(self.scenario@[i], scenario@[i]));
            }
        }
        let right = self.right.clone();
        let wrong = self.wrong.clone();
        assert(right@ == self.right@);
        assert(wrong@ == self.wrong@);
        Questionv4 {
            price: self.price,
            question_type: self.question_type.clone(),
            scenario,
            right,
            wrong,
            info: clone_opt_info(&self.info),
        }
    }
}

impl Default for Questionv4 {
    fn default() -> (r: Self)
        ensures
            r@ == new_question(100),
    {
        let r = Questionv4 {
            price: 100,
            question_type: QuestionTypev4::default(),
            scenario: Vec::new(),
            right: Vec::new(),
            wrong: Vec::new(),
            info: None,
        };
        assert(strs(r.right@) =~= Seq::<Seq<char>>::empty());
        assert(strs(r.wrong@) =~= Seq::<Seq<char>>::empty());
        assert(atoms(r.scenario@) =~= Seq::<AtomModel>::empty());
        assert(r@ == new_question(100));
        r
    }
}

impl QuestionBase for Questionv4 {
    open spec fn spec_price(&self) -> usize {
        self.price
    }

    open spec fn with_price(self, price: usize) -> Self {
        Questionv4 { price, ..self }
    }

    fn get_price(&self) -> (r: usize) {
        self.price
    }

    fn set_price(&mut self, price: usize) {
        self.price = price;
    }
}

/// A theme: a named list of questions.
#[derive(Debug, PartialEq)]
pub struct Themev4 {
    pub name: String,
    pub questions: Vec<Questionv4>,
    pub info: Option<Infov4>,
}

/// Value view of [`Themev4`].
pub struct ThemeModel {
    pub name: Seq<char>,
    pub questions: Seq<QuestionModel>,
    pub info: Option<InfoModel>,
}

impl View for Themev4 {
    type V = ThemeModel;

    open spec fn view(&self) -> ThemeModel {
        ThemeModel {
            name: self.name@,
            questions: questions_view(self.questions@),
            info: opt_info(self.info),
        }
    }
}

/// Views of a sequence of themes.
pub open spec fn themes_view(v: Seq<Themev4>) -> Seq<ThemeModel> {
    v.map_values(|t: Themev4| t@)
}

/// The view of a new theme: five questions priced 100 to 500.
pub open spec fn new_theme() -> ThemeModel {
    ThemeModel {
        name: "Новая тема"@,
        questions: seq![
            new_question(100),
            new_question(200),
            new_question(300),
            new_question(400),
            new_question(500),
        ],
        info: None,
    }
}

impl Clone for Themev4 {
    fn clone(&self) -> (r: Self)
        ensures
            r@ == self@,
    {
        let questions = self.questions.clone();
        assert(questions_view(questions@) =~= questions_view(self.questions@)) by {
            assert forall|i: int| 0 <= i < questions@.len() implies #[trigger] questions@[i]@
                == self.questions@[i]@ by {
                assert(cloned(self.questions@[i], questions@[i]));
            }
        }
        Themev4 { name: self.name.clone(), questions, info: clone_opt_info(&self.info) }
    }
}

fn question_priced(price: usize) -> (r: Questionv4)
    ensures
        r@ == new_question(price),
{
    let mut q = Questionv4::default();
    q.price = price;
    q
}

impl Default for Themev4 {
    fn default() -> (r: Self)
        ensures
            r@ == new_theme(),
    {
        let questions = vec![
            question_priced(100),
            question_priced(200),
            question_priced(300),
            question_priced(400),
            question_priced(500),
        ];
        let r = Themev4 { name: "Новая тема".to_string(), questions, info: None };
        assert(questions_view(r.questions@) =~= new_theme().questions);
        r
    }
}

impl QuestionsContainer for Themev4 {
    type Question = Questionv4;

    type QuestionsFrame = Themev4;

    open spec fn spec_questions(&self, idx: ThemeIdx) -> Option<Seq<Questionv4>> {
        Some(self.questions@)
    }

    open spec fn questions_frame(&self, idx: ThemeIdx) -> Themev4 {
        Themev4 { name: self.name, questions: arbitrary(), info: self.info }
    }

    fn get_questions(&self, idx: ThemeIdx) -> (r: Option<&Vec<Questionv4>>) {
        Some(&self.questions)
    }

    fn get_questions_mut(&mut self, idx: ThemeIdx) -> (r: Option<&mut Vec<Questionv4>>) {
        Some(&mut self.questions)
    }
}

impl ThemeBase for Themev4 {

}

/// A round: a named list of themes.
#[derive(Debug, PartialEq)]
pub struct Roundv4 {
    pub name: String,
    pub kind: Option<String>,
    pub info: Option<Infov4>,
    pub themes: Vec<Themev4>,
}

/// Value view of [`Roundv4`].
pub struct RoundModel {
    pub name: Seq<char>,
    pub kind: Option<Seq<char>>,
    pub info: Option<InfoModel>,
    pub themes: Seq<ThemeModel>,
}

impl View for Roundv4 {
    type V = RoundModel;

    open spec fn view(&self) -> RoundModel {
        RoundModel {
            name: self.name@,
            kind: opt_str(self.kind),
            info: opt_info(self.info),
            themes: themes_view(self.themes@),
        }
    }
}

/// Views of a sequence of rounds.
pub open spec fn rounds_view(v: Seq<Roundv4>) -> Seq<RoundModel> {
    v.map_values(|r: Roundv4| r@)
}

/// The view of a new round: no themes.
pub open spec fn new_round() -> RoundModel {
    RoundModel { name: "Новый раунд"@, kind: None, info: None, themes: Seq::empty() }
}

impl Clone for Roundv4 {
    fn clone(&self) -> (r: Self)
        ensures
            r@ == self@,
    {
        let themes = self.themes.clone();
        assert(themes_view(themes@) =~= themes_view(self.themes@)) by {
            assert forall|i: int| 0 <= i < themes@.len() implies #[trigger] themes@[i]@
                == self.themes@[i]@ by {
                assert(cloned(self.themes@[i], themes@[i]));
            }
        }
        Roundv4 {
            name: self.name.clone(),
            kind: self.kind.clone(),
            info: clone_opt_info(&self.info),
            themes,
        }
    }
}

impl Default for Roundv4 {
    fn default() -> (r: Self)
        ensures
            r@ == new_round(),
    {
        let r = Roundv4 {
            name: "Новый раунд".to_string(),
            kind: None,
            info: None,
            themes: Vec::new(),
        };
        assert(themes_view(r.themes@) =~= Seq::<ThemeModel>::empty());
        r
    }
}

impl ThemesContainer for Roundv4 {
    type Theme = Themev4;

    type ThemesFrame = Roundv4;

    open spec fn spec_themes(&self, idx: RoundIdx) -> Option<Seq<Themev4>> {
        Some(self.themes@)
    }

    open spec fn themes_frame(&self, idx: RoundIdx) -> Roundv4 {
        Roundv4 { name: self.name, kind: self.kind, info: self.info, themes: arbitrary() }
    }

    fn get_themes(&self, idx: RoundIdx) -> (r: Option<&Vec<Themev4>>) {
        Some(&self.themes)
    }

    fn get_themes_mut(&mut self, idx: RoundIdx) -> (r: Option<&mut Vec<Themev4>>) {
        Some(&mut self.themes)
    }
}

impl RoundBase for Roundv4 {

}

} // verus!
