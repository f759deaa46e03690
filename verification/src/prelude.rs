//! The items most users need, with the v4 package types under their
//! plain names.
pub use crate::node::{PackageNode, QuestionIdx, RoundIdx, ThemeIdx};
pub use crate::package_trait::{
    NodeContainer, PackageBase, QuestionBase, QuestionsContainer, RoundBase, RoundContainer,
    ThemeBase, ThemesContainer,
};
pub use crate::v4::{
    Infov4 as Info, Packagev4 as Package, Questionv4 as Question, Roundv4 as Round,
    Themev4 as Theme,
};
