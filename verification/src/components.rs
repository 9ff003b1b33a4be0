//! The presentational components: each one a pure function from typed props
//! to a markup fragment.

pub mod footer;
pub mod layout;
pub mod recent_project_card;
pub mod recent_projects;
