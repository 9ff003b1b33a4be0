//! The home view: a hero region followed by the recent-projects section.
//! The hero fragment and the project records come from the caller; the view
//! only composes them.

use crate::components::recent_project_card::RecentProject;
use crate::components::recent_projects::project_views;
use crate::components::recent_projects::spec_projects_section;
use crate::components::recent_projects::RecentProjects;
use crate::markup::node_views;
use crate::markup::nodes2;
use crate::markup::Node;
use vstd::prelude::*;

verus! {

/// Composes the home view: the hero fragment passed through unchanged,
/// then the projects section rendered from the given records.
#[allow(non_snake_case)]
pub fn Home(hero: Node, recent_projects: Vec<RecentProject>) -> (v: Vec<Node>)
    ensures
        node_views(v@) == seq![hero@, spec_projects_section(project_views(recent_projects@))],
{
    let section = RecentProjects(recent_projects);
    let v = nodes2(hero, section);
    proof {
        assert(node_views(v@) =~= seq![hero@, section@]);
    }
    v
}

} // verus!
