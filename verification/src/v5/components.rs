//! Rounds, themes, questions and their metadata in the v5 format.
use vstd::prelude::*;
use crate::node::{RoundIdx, ThemeIdx};
use crate::package_trait::{
    QuestionBase, QuestionsContainer, RoundBase, ThemeBase, ThemesContainer,
};
use crate::v4::atom::opt_str;

verus! {

/// Views of a sequence of strings.
pub open spec fn strs(v: Seq<String>) -> Seq<Seq<char>> {
    v.map_values(|s: String| s@)
}

/// Views of a sequence of atoms.
pub open spec fn atoms(v: Seq<AtomV5>) -> Seq<AtomModel> {
    v.map_values(|a: AtomV5| a@)
}

/// Views of a sequence of answers.
pub open spec fn answers(v: Seq<AnswerV5>) -> Seq<Option<Seq<char>>> {
    v.map_values(|a: AnswerV5| a@)
}

/// One piece of a question's scenario. `variant` is the `type` attribute
/// (`voice`, `image`, `video`, or none for text); `time` holds the text of
/// the optional `time` attribute (seconds).
#[derive(Debug, PartialEq)]
pub struct AtomV5 {
    pub time: Option<String>,
    pub variant: Option<String>,
    pub body: Option<String>,
}

/// Value view of [`AtomV5`].
pub struct AtomModel {
    pub time: Option<Seq<char>>,
    pub variant: Option<Seq<char>>,
    pub body: Option<Seq<char>>,
}

impl View for AtomV5 {
    type V = AtomModel;

    open spec fn view(&self) -> AtomModel {
        AtomModel { time: opt_str(self.time), variant: opt_str(self.variant), body: opt_str(self.body) }
    }
}

impl Clone for AtomV5 {
    fn clone(&self) -> (r: Self)
        ensures
            r@ == self@,
    {
        AtomV5 { time: self.time.clone(), variant: self.variant.clone(), body: self.body.clone() }
    }
}

impl Default for AtomV5 {
    fn default() -> (r: Self)
        ensures
            r@ == (AtomModel { time: None, variant: None, body: None }),
    {
        AtomV5 { time: None, variant: None, body: None }
    }
}

/// An answer; the body is the answer's text, if any.
#[derive(Debug, PartialEq)]
pub struct AnswerV5 {
    pub body: Option<String>,
}

impl View for AnswerV5 {
    type V = Option<Seq<char>>;

    open spec fn view(&self) -> Option<Seq<char>> {
        opt_str(self.body)
    }
}

impl Clone for AnswerV5 {
    fn clone(&self) -> (r: Self)
        ensures
            r@ == self@,
    {
        AnswerV5 { body: self.body.clone() }
    }
}

impl Default for AnswerV5 {
    fn default() -> (r: Self)
        ensures
            r@ is None,
    {
        AnswerV5 { body: None }
    }
}

/// A list of authors.
#[derive(Debug, Default, Clone, PartialEq)]
pub struct AuthorsV5 {
    pub authors: Vec<String>,
}

/// A list of questions.
#[derive(Debug, Default, Clone, PartialEq)]
pub struct QuestionsV5 {
    pub questions: Vec<QuestionV5>,
}

/// Optional metadata of a package, round, theme or question.
#[derive(Debug, PartialEq)]
pub struct InfoV5 {
    pub comments: String,
    pub extension: String,
    pub authors: Vec<String>,
    pub sources: Vec<String>,
}

/// Value view of [`InfoV5`].
pub struct InfoModel {
    pub comments: Seq<char>,
    pub extension: Seq<char>,
    pub authors: Seq<Seq<char>>,
    pub sources: Seq<Seq<char>>,
}

impl View for InfoV5 {
    type V = InfoModel;

    open spec fn view(&self) -> InfoModel {
        InfoModel {
            comments: self.comments@,
            extension: self.extension@,
            authors: strs(self.authors@),
            sources: strs(self.sources@),
        }
    }
}

/// View of optional metadata.
pub open spec fn opt_info(i: Option<InfoV5>) -> Option<InfoModel> {
    match i {
        Some(i) => Some(i@),
        None => None,
    }
}

/// Metadata with every field empty.
pub open spec fn empty_info() -> InfoModel {
    InfoModel {
        comments: Seq::empty(),
        extension: Seq::empty(),
        authors: Seq::empty(),
        sources: Seq::empty(),
    }
}

impl Clone for InfoV5 {
    fn clone(&self) -> (r: Self)
        ensures
            r@ == self@,
    {
        let authors = self.authors.clone();
        let sources = self.sources.clone();
        assert(authors@ == self.authors@);
        assert(sources@ == self.sources@);
        InfoV5 {
            comments: self.comments.clone(),
            extension: self.extension.clone(),
            authors,
            sources,
        }
    }
}

impl Default for InfoV5 {
    fn default() -> (r: Self)
        ensures
            r@ == empty_info(),
    {
        let r = InfoV5 {
            comments: String::new(),
            extension: String::new(),
            authors: Vec::new(),
            sources: Vec::new(),
        };
        assert(strs(r.authors@) =~= Seq::<Seq<char>>::empty());
        assert(strs(r.sources@) =~= Seq::<Seq<char>>::empty());
        assert(r@ == empty_info());
        r
    }
}

fn clone_opt_info(i: &Option<InfoV5>) -> (r: Option<InfoV5>)
    ensures
        opt_info(r) == opt_info(*i),
{
    match i {
        Some(info) => Some(info.clone()),
        None => None,
    }
}

/// A named parameter of a question type.
#[derive(Debug, Default, PartialEq)]
pub struct ParamV5 {
    pub name: String,
    pub body: Option<String>,
}

/// Value view of [`ParamV5`].
pub struct ParamModel {
    pub name: Seq<char>,
    pub body: Option<Seq<char>>,
}

impl View for ParamV5 {
    type V = ParamModel;

    open spec fn view(&self) -> ParamModel {
        ParamModel { name: self.name@, body: opt_str(self.body) }
    }
}

impl Clone for ParamV5 {
    fn clone(&self) -> (r: Self)
        ensures
            r@ == self@,
    {
        ParamV5 { name: self.name.clone(), body: self.body.clone() }
    }
}

/// Views of optional parameters.
pub open spec fn opt_params(p: Option<Vec<ParamV5>>) -> Option<Seq<ParamModel>> {
    match p {
        Some(v) => Some(v@.map_values(|x: ParamV5| x@)),
        None => None,
    }
}

/// Type of a question (`simple`, `auction`, `cat`, ...) with parameters.
#[derive(Debug, PartialEq)]
pub struct QuestionTypeV5 {
    pub name: String,
    pub params: Option<Vec<ParamV5>>,
}

/// Value view of [`QuestionTypeV5`].
pub struct QuestionTypeModel {
    pub name: Seq<char>,
    pub params: Option<Seq<ParamModel>>,
}

impl View for QuestionTypeV5 {
    type V = QuestionTypeModel;

    open spec fn view(&self) -> QuestionTypeModel {
        QuestionTypeModel { name: self.name@, params: opt_params(self.params) }
    }
}

impl Clone for QuestionTypeV5 {
    fn clone(&self) -> (r: Self)
        ensures
            r@ == self@,
    {
        let params = match &self.params {
            Some(v) => {
                let c = v.clone();
                assert(c@.map_values(|x: ParamV5| x@) =~= v@.map_values(|x: ParamV5| x@)) by {
                    assert forall|i: int| 0 <= i < c@.len() implies #[trigger] c@[i]@ == v@[i]@ by {
                        assert(cloned(v@[i], c@[i]));
                    }
                }
                Some(c)
            },
            None => None,
        };
        QuestionTypeV5 { name: self.name.clone(), params }
    }
}

impl Default for QuestionTypeV5 {
    fn default() -> (r: Self)
        ensures
            r@ == (QuestionTypeModel { name: Seq::empty(), params: None }),
    {
        QuestionTypeV5 { name: String::new(), params: None }
    }
}

/// A question: price, type, scenario atoms and right/wrong answers.
#[derive(Debug, PartialEq)]
pub struct QuestionV5 {
    pub price: usize,
    pub question_type: QuestionTypeV5,
    pub scenario: Vec<AtomV5>,
    pub right: Vec<AnswerV5>,
    pub wrong: Vec<AnswerV5>,
    pub info: Option<InfoV5>,
}

/// Value view of [`QuestionV5`].
pub struct QuestionModel {
    pub price: usize,
    pub question_type: QuestionTypeModel,
    pub scenario: Seq<AtomModel>,
    pub right: Seq<Option<Seq<char>>>,
    pub wrong: Seq<Option<Seq<char>>>,
    pub info: Option<InfoModel>,
}

impl View for QuestionV5 {
    type V = QuestionModel;

    open spec fn view(&self) -> QuestionModel {
        QuestionModel {
            price: self.price,
            question_type: self.question_type@,
            scenario: atoms(self.scenario@),
            right: answers(self.right@),
            wrong: answers(self.wrong@),
            info: opt_info(self.info),
        }
    }
}

/// Views of a sequence of questions.
pub open spec fn questions_view(v: Seq<QuestionV5>) -> Seq<QuestionModel> {
    v.map_values(|q: QuestionV5| q@)
}

/// The view of a new question with the given price.
pub open spec fn new_question(price: usize) -> QuestionModel {
    QuestionModel {
        price,
        question_type: QuestionTypeModel { name: Seq::empty(), params: None },
        scenario: Seq::empty(),
        right: Seq::empty(),
        wrong: Seq::empty(),
        info: None,
    }
}

impl Clone for QuestionV5 {
    fn clone(&self) -> (r: Self)
        ensures
            r@ == self@,
    {
        let scenario = self.scenario.clone();
        assert(atoms(scenario@) =~= atoms(self.scenario@)) by {
            assert forall|i: int| 0 <= i < scenario@.len() implies #[trigger] scenario@[i]@
                == self.scenario@[i]@ by {
                assert(cloned(self.scenario@[i], scenario@[i]));
            }
        }
        let right = self.right.clone();
        assert(answers(right@) =~= answers(self.right@)) by {
            assert forall|i: int| 0 <= i < right@.len() implies #[trigger] right@[i]@
                == self.right@[i]@ by {
                assert(cloned(self.right@[i], right@[i]));
            }
        }
        let wrong = self.wrong.clone();
        assert(answers(wrong@) =~= answers(self.wrong@)) by {
            assert forall|i: int| 0 <= i < wrong@.len() implies #[trigger] wrong@[i]@
                == self.wrong@[i]@ by {
                assert(cloned(self.wrong@[i], wrong@[i]));
            }
        }
        QuestionV5 {
            price: self.price,
            question_type: self.question_type.clone(),
            scenario,
            right,
            wrong,
            info: clone_opt_info(&self.info),
        }
    }
}

impl Default for QuestionV5 {
    fn default() -> (r: Self)
        ensures
            r@ == new_question(100),
    {
        let r = QuestionV5 {
            price: 100,
            question_type: QuestionTypeV5::default(),
            scenario: Vec::new(),
            right: Vec::new(),
            wrong: Vec::new(),
            info: None,
        };
        assert(answers(r.right@) =~= Seq::<Option<Seq<char>>>::empty());
        assert(answers(r.wrong@) =~= Seq::<Option<Seq<char>>>::empty());
        assert(atoms(r.scenario@) =~= Seq::<AtomModel>::empty());
        assert(r@ == new_question(100));
        r
    }
}

impl QuestionBase for QuestionV5 {
    open spec fn spec_price(&self) -> usize {
        self.price
    }

    open spec fn with_price(self, price: usize) -> Self {
        QuestionV5 { price, ..self }
    }

    fn get_price(&self) -> (r: usize) {
        self.price
    }

    fn set_price(&mut self, price: usize) {
        self.price = price;
    }
}

/// A theme: a named list of questions.
#[derive(Debug, PartialEq)]
pub struct ThemeV5 {
    pub name: String,
    pub questions: Vec<QuestionV5>,
    pub info: Option<InfoV5>,
}

/// Value view of [`ThemeV5`].
pub struct ThemeModel {
    pub name: Seq<char>,
    pub questions: Seq<QuestionModel>,
    pub info: Option<InfoModel>,
}

impl View for ThemeV5 {
    type V = ThemeModel;

    open spec fn view(&self) -> ThemeModel {
        ThemeModel {
            name: self.name@,
            questions: questions_view(self.questions@),
            info: opt_info(self.info),
        }
    }
}

/// Views of a sequence of themes.
pub open spec fn themes_view(v: Seq<ThemeV5>) -> Seq<ThemeModel> {
    v.map_values(|t: ThemeV5| t@)
}

/// The view of a new theme: five questions priced 100 to 500.
pub open spec fn new_theme() -> ThemeModel {
    ThemeModel {
        name: "Новая тема"@,
        questions: seq![
            new_question(100),
            new_question(200),
            new_question(300),
            new_question(400),
            new_question(500),
        ],
        info: None,
    }
}

impl Clone for ThemeV5 {
    fn clone(&self) -> (r: Self)
        ensures
            r@ == self@,
    {
        let questions = self.questions.clone();
        assert(questions_view(questions@) =~= questions_view(self.questions@)) by {
            assert forall|i: int| 0 <= i < questions@.len() implies #[trigger] questions@[i]@
                == self.questions@[i]@ by {
                assert(cloned(self.questions@[i], questions@[i]));
            }
        }
        ThemeV5 { name: self.name.clone(), questions, info: clone_opt_info(&self.info) }
    }
}

fn question_priced(price: usize) -> (r: QuestionV5)
    ensures
        r@ == new_question(price),
{
    let mut q = QuestionV5::default();
    q.price = price;
    q
}

impl Default for ThemeV5 {
    fn default() -> (r: Self)
        ensures
            r@ == new_theme(),
    {
        let questions = vec![
            question_priced(100),
            question_priced(200),
            question_priced(300),
            question_priced(400),
            question_priced(500),
        ];
        let r = ThemeV5 { name: "Новая тема".to_string(), questions, info: None };
        assert(questions_view(r.questions@) =~= new_theme().questions);
        r
    }
}

impl QuestionsContainer for ThemeV5 {
    type Question = QuestionV5;

    type QuestionsFrame = ThemeV5;

    open spec fn spec_questions(&self, idx: ThemeIdx) -> Option<Seq<QuestionV5>> {
        Some(self.questions@)
    }

    open spec fn questions_frame(&self, idx: ThemeIdx) -> ThemeV5 {
        ThemeV5 { name: self.name, questions: arbitrary(), info: self.info }
    }

    fn get_questions(&self, idx: ThemeIdx) -> (r: Option<&Vec<QuestionV5>>) {
        Some(&self.questions)
    }

    fn get_questions_mut(&mut self, idx: ThemeIdx) -> (r: Option<&mut Vec<QuestionV5>>) {
        Some(&mut self.questions)
    }
}

impl ThemeBase for ThemeV5 {

}

/// A round: a named list of themes.
#[derive(Debug, PartialEq)]
pub struct RoundV5 {
    pub name: String,
    pub kind: Option<String>,
    pub info: Option<InfoV5>,
    pub themes: Vec<ThemeV5>,
}

/// Value view of [`RoundV5`].
pub struct RoundModel {
    pub name: Seq<char>,
    pub kind: Option<Seq<char>>,
    pub info: Option<InfoModel>,
    pub themes: Seq<ThemeModel>,
}

impl View for RoundV5 {
    type V = RoundModel;

    open spec fn view(&self) -> RoundModel {
        RoundModel {
            name: self.name@,
            kind: opt_str(self.kind),
            info: opt_info(self.info),
            themes: themes_view(self.themes@),
        }
    }
}

/// Views of a sequence of rounds.
pub open spec fn rounds_view(v: Seq<RoundV5>) -> Seq<RoundModel> {
    v.map_values(|r: RoundV5| r@)
}

/// The view of a new round: no themes.
pub open spec fn new_round() -> RoundModel {
    RoundModel { name: "Новый раунд"@, kind: None, info: None, themes: Seq::empty() }
}

impl Clone for RoundV5 {
    fn clone(&self) -> (r: Self)
        ensures
            r@ == self@,
    {
        let themes = self.themes.clone();
        assert(themes_view(themes@) =~= themes_view(self.themes@)) by {
            assert forall|i: int| 0 <= i < themes@.len() implies #[trigger] themes@[i]@
                == self.themes@[i]@ by {
                assert(cloned(self.themes@[i], themes@[i]));
            }
        }
        RoundV5 {
            name: self.name.clone(),
            kind: self.kind.clone(),
            info: clone_opt_info(&self.info),
            themes,
        }
    }
}

impl Default for RoundV5 {
    fn default() -> (r: Self)
        ensures
            r@ == new_round(),
    {
        let r = RoundV5 {
            name: "Новый раунд".to_string(),
            kind: None,
            info: None,
            themes: Vec::new(),
        };
        assert(themes_view(r.themes@) =~= Seq::<ThemeModel>::empty());
        r
    }
}

impl ThemesContainer for RoundV5 {
    type Theme = ThemeV5;

    type ThemesFrame = RoundV5;

    open spec fn spec_themes(&self, idx: RoundIdx) -> Option<Seq<ThemeV5>> {
        Some(self.themes@)
    }

    open spec fn themes_frame(&self, idx: RoundIdx) -> RoundV5 {
        RoundV5 { name: self.name, kind: self.kind, info: self.info, themes: arbitrary() }
    }

    fn get_themes(&self, idx: RoundIdx) -> (r: Option<&Vec<ThemeV5>>) {
        Some(&self.themes)
    }

    fn get_themes_mut(&mut self, idx: RoundIdx) -> (r: Option<&mut Vec<ThemeV5>>) {
        Some(&mut self.themes)
    }
}

impl RoundBase for RoundV5 {

}

} // verus!
