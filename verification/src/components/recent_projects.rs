//! The projects section: a fixed heading and a responsive grid holding
//! exactly one card per project record, in input order. An empty record list
//! keeps the heading and renders the grid empty, never omitted.

use crate::components::recent_project_card::spec_project_card;
use crate::components::recent_project_card::RecentProject;
use crate::components::recent_project_card::RecentProjectCard;
use crate::components::recent_project_card::RecentProjectView;
use crate::markup::attr;
use crate::markup::attrs1;
use crate::markup::attrs2;
use crate::markup::elem;
use crate::markup::elem_attrs;
use crate::markup::elem_children;
use crate::markup::nodes1;
use crate::markup::nodes2;
use crate::markup::spec_attr;
use crate::markup::spec_elem;
use crate::markup::text;
use crate::markup::text_of;
use crate::markup::Node;
use crate::markup::NodeView;
use vstd::prelude::*;

verus! {

/// Styling tokens of the section container.
pub open spec fn section_class() -> Seq<char> {
    "py-12 md:py-20 border-b border-[#1f1f1f]"@
}

/// Styling tokens of the centering wrapper.
pub open spec fn container_class() -> Seq<char> {
    "max-w-[1200px] mx-auto px-5 md:px-8"@
}

/// Styling tokens of the section heading.
pub open spec fn heading_class() -> Seq<char> {
    "text-2xl md:text-3xl font-bold text-white mb-10"@
}

/// Styling tokens of the card grid.
pub open spec fn grid_class() -> Seq<char> {
    "grid grid-cols-1 md:grid-cols-2 lg:grid-cols-3 gap-5 md:gap-6"@
}

/// The shapes of a sequence of project records, in order.
pub open spec fn project_views(ps: Seq<RecentProject>) -> Seq<RecentProjectView> {
    ps.map_values(|p: RecentProject| p@)
}

/// The shape of the projects section: the fixed heading, then a grid with
/// one card per record, in record order.
pub open spec fn spec_projects_section(ps: Seq<RecentProjectView>) -> NodeView {
    spec_elem(
        "section"@,
        seq![spec_attr("id"@, "projects"@), spec_attr("class"@, section_class())],
        seq![
            spec_elem(
                "div"@,
                seq![spec_attr("class"@, container_class())],
                seq![
                    spec_elem(
                        "h2"@,
                        seq![spec_attr("class"@, heading_class())],
                        seq![NodeView::Text("Recent Projects"@)],
                    ),
                    spec_elem(
                        "div"@,
                        seq![spec_attr("class"@, grid_class())],
                        ps.map_values(|p: RecentProjectView| spec_project_card(p)),
                    ),
                ],
            ),
        ],
    )
}

/// The cards held by the grid of a section shape, in grid order.
pub open spec fn section_cards(n: NodeView) -> Seq<NodeView> {
    elem_children(elem_children(elem_children(n)[0])[1])
}

/// The heading text of a section shape.
pub open spec fn section_heading_text(n: NodeView) -> Seq<char> {
    text_of(elem_children(elem_children(elem_children(n)[0])[0])[0])
}

/// The section renders exactly one card per record, in input order: the
/// grid holds as many cards as there are records, and the card at each
/// position is the card of the record at that position.
pub proof fn lemma_section_one_card_per_record(ps: Seq<RecentProjectView>)
    ensures
        section_cards(spec_projects_section(ps)).len() == ps.len(),
        forall|i: int|
            0 <= i < ps.len() ==> section_cards(spec_projects_section(ps))[i]
                == spec_project_card(ps[i]),
{
}

/// Reordering the records reorders the cards identically: wherever a record
/// moves, its card moves with it.
pub proof fn lemma_section_reorders_with_input(
    before: Seq<RecentProjectView>,
    after: Seq<RecentProjectView>,
    f: spec_fn(int) -> int,
)
    requires
        after.len() == before.len(),
        forall|i: int| 0 <= i < after.len() ==> 0 <= #[trigger] f(i) < before.len(),
        forall|i: int| 0 <= i < after.len() ==> after[i] == before[#[trigger] f(i)],
    ensures
        section_cards(spec_projects_section(after)).len() == section_cards(
            spec_projects_section(before),
        ).len(),
        forall|i: int|
            0 <= i < after.len() ==> section_cards(spec_projects_section(after))[i] == section_cards(
                spec_projects_section(before),
            )[f(i)],
{
    lemma_section_one_card_per_record(before);
    lemma_section_one_card_per_record(after);
}

/// The heading renders for every record list; with no records the grid is
/// present and empty, never omitted.
pub proof fn lemma_section_heading_always_renders(ps: Seq<RecentProjectView>)
    ensures
        section_heading_text(spec_projects_section(ps)) == "Recent Projects"@,
        ps.len() == 0 ==> section_cards(spec_projects_section(ps)).len() == 0,
{
}

/// Renders the ordered project records as the projects section.
#[allow(non_snake_case)]
pub fn RecentProjects(recent_projects: Vec<RecentProject>) -> (n: Node)
    ensures
        n@ == spec_projects_section(project_views(recent_projects@)),
{
    let ghost ps = project_views(recent_projects@);
    let ghost target = spec_projects_section(ps);
    let ghost t_container = elem_children(target)[0];
    let ghost t_heading = elem_children(t_container)[0];
    let ghost t_grid = elem_children(t_container)[1];

    let mut rest = recent_projects;
    let mut cards: Vec<Node> = Vec::new();
    while rest.len() > 0
        invariant
            cards@.len() + rest@.len() == ps.len(),
            project_views(rest@) == ps.skip(cards@.len() as int),
            forall|j: int| 0 <= j < cards@.len() ==> cards@[j]@ == spec_project_card(ps[j]),
        decreases rest@.len(),
    {
        let ghost k = cards@.len() as int;
        let ghost prev = rest@;
        let record = rest.remove(0);
        proof {
            assert(record@ == project_views(prev)[0]);
            assert(record@ == ps[k]);
            assert forall|i: int| 0 <= i < rest@.len() implies project_views(rest@)[i] == ps.skip(
                k + 1,
            )[i] by {
                assert(rest@[i] == prev[i + 1]);
                assert(project_views(prev)[i + 1] == prev[i + 1]@);
                assert(ps.skip(k)[i + 1] == ps[k + 1 + i]);
                assert(ps.skip(k + 1)[i] == ps[k + 1 + i]);
            }
            assert(project_views(rest@) =~= ps.skip(k + 1));
        }
        let card = RecentProjectCard(record);
        cards.push(card);
    }

    let heading = elem(
        "h2",
        attrs1(attr("class", "text-2xl md:text-3xl font-bold text-white mb-10")),
        nodes1(text("Recent Projects")),
    );
    proof {
        assert(elem_attrs(heading@) =~~= elem_attrs(t_heading));
        assert(elem_children(heading@) =~~= elem_children(t_heading));
        assert(heading@ =~= t_heading);
    }
    let grid = elem(
        "div",
        attrs1(attr("class", "grid grid-cols-1 md:grid-cols-2 lg:grid-cols-3 gap-5 md:gap-6")),
        cards,
    );
    proof {
        assert(elem_attrs(grid@) =~~= elem_attrs(t_grid));
        assert(elem_children(grid@) =~~= elem_children(t_grid));
        assert(grid@ =~= t_grid);
    }
    let container = elem(
        "div",
        attrs1(attr("class", "max-w-[1200px] mx-auto px-5 md:px-8")),
        nodes2(heading, grid),
    );
    proof {
        assert(elem_attrs(container@) =~~= elem_attrs(t_container));
        assert(elem_children(container@) =~~= elem_children(t_container));
        assert(container@ =~= t_container);
    }
    let n = elem(
        "section",
        attrs2(attr("id", "projects"), attr("class", "py-12 md:py-20 border-b border-[#1f1f1f]")),
        nodes1(container),
    );
    proof {
        assert(elem_attrs(n@) =~~= elem_attrs(target));
        assert(elem_children(n@) =~~= elem_children(target));
        assert(n@ =~= target);
    }
    n
}

} // verus!
