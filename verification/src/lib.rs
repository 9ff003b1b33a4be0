//! A small presentational component library: stateless functions from typed
//! props to a markup fragment, rendered elsewhere by a host engine.

pub mod calendar;
pub mod components;
pub mod markup;
pub mod numeral;
pub mod views;

pub use components::footer::Footer;
pub use components::layout::Layout;
pub use components::recent_project_card::RecentProject;
pub use components::recent_project_card::RecentProjectCard;
pub use components::recent_projects::RecentProjects;
pub use markup::Attr;
pub use markup::Node;
pub use markup::NodeView;
pub use views::home::Home;
