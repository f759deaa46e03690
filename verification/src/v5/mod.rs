pub mod components;
pub mod package;

pub use components::{
    AnswerV5, AtomV5, AuthorsV5, InfoV5, ParamV5, QuestionTypeV5, QuestionV5, QuestionsV5, RoundV5,
    ThemeV5,
};
pub use package::{PackageV5, Resource};
