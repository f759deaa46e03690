//! Model, editing operations and archive logic of SIGame question packages.
pub mod archive;
pub mod edit_laws;
pub mod editor;
pub mod editor_panels;
pub mod encoding;
pub mod identity;
pub mod node;
pub mod package_trait;
pub mod prelude;
pub mod resources;
pub mod text;
pub mod v4;
pub mod v5;
