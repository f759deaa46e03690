pub mod atom;
pub mod components;
pub mod package;

pub use atom::{AtomKindv4, Atomv4, ResourceIdv4};
pub use components::{Infov4, Paramv4, QuestionTypev4, Questionv4, Roundv4, Themev4};
pub use package::Packagev4;
