//! One project's card: title heading, tag strip and description, rendered
//! either as an activatable anchor (when a link is present) or as a
//! non-interactive block (when it is absent), with identical content in both
//! variants.

use crate::markup::attr;
use crate::markup::attrs1;
use crate::markup::attrs4;
use crate::markup::elem;
use crate::markup::elem_attrs;
use crate::markup::elem_children;
use crate::markup::elem_tag;
use crate::markup::has_attr;
use crate::markup::has_attr_named;
use crate::markup::has_no_activation;
use crate::markup::node_views;
use crate::markup::nodes1;
use crate::markup::nodes3;
use crate::markup::spec_attr;
use crate::markup::spec_elem;
use crate::markup::text;
use crate::markup::text_of;
use crate::markup::text_owned;
use crate::markup::Node;
use crate::markup::NodeView;
use vstd::prelude::*;

verus! {

/// One project record: the props of the card.
#[derive(Clone)]
pub struct RecentProject {
    pub title: String,
    pub description: String,
    pub tags: Vec<String>,
    pub link: Option<String>,
}

/// The mathematical shape of one project record.
#[verifier::ext_equal]
pub struct RecentProjectView {
    pub title: Seq<char>,
    pub description: Seq<char>,
    pub tags: Seq<Seq<char>>,
    pub link: Option<Seq<char>>,
}

impl View for RecentProject {
    type V = RecentProjectView;

    open spec fn view(&self) -> RecentProjectView {
        RecentProjectView {
            title: self.title@,
            description: self.description@,
            tags: self.tags@.map_values(|t: String| t@),
            link: match self.link {
                Some(u) => Some(u@),
                None => None,
            },
        }
    }
}

/// Styling tokens of the anchor variant of the card.
pub open spec fn linked_card_class() -> Seq<char> {
    "bg-[#111111] border border-[#1f1f1f] rounded-xl p-6 hover:border-[#2a2a2a] hover:-translate-y-1 transition-all duration-300 block focus:outline-none focus:ring-2 focus:ring-[#c46846] focus:ring-offset-2 focus:ring-offset-[#0a0a0a]"@
}

/// Styling tokens of the non-interactive variant of the card.
pub open spec fn static_card_class() -> Seq<char> {
    "bg-[#111111] border border-[#1f1f1f] rounded-xl p-6 transition-all duration-300 block"@
}

/// Styling tokens of the title heading.
pub open spec fn title_class() -> Seq<char> {
    "text-[#c46846] text-lg mb-3 font-semibold"@
}

/// Styling tokens of the tag strip container.
pub open spec fn tag_strip_class() -> Seq<char> {
    "flex flex-wrap gap-2 mb-3"@
}

/// Styling tokens of one tag label.
pub open spec fn tag_label_class() -> Seq<char> {
    "bg-[#1a1a1a] border border-[#2a2a2a] px-2.5 py-1 rounded text-xs text-[#9ca3af]"@
}

/// Styling tokens of the description paragraph.
pub open spec fn description_class() -> Seq<char> {
    "text-[#b0b0b0] text-sm leading-relaxed"@
}

/// The shape of one tag label: an inline element holding the tag verbatim.
pub open spec fn spec_tag_span(t: Seq<char>) -> NodeView {
    spec_elem(
        "span"@,
        seq![spec_attr("class"@, tag_label_class())],
        seq![NodeView::Text(t)],
    )
}

/// The shared content of both card variants: title heading, tag strip with
/// one label per tag in input order, description paragraph.
pub open spec fn spec_card_body(p: RecentProjectView) -> Seq<NodeView> {
    seq![
        spec_elem("h3"@, seq![spec_attr("class"@, title_class())], seq![NodeView::Text(p.title)]),
        spec_elem(
            "div"@,
            seq![spec_attr("class"@, tag_strip_class())],
            p.tags.map_values(|t: Seq<char>| spec_tag_span(t)),
        ),
        spec_elem(
            "p"@,
            seq![spec_attr("class"@, description_class())],
            seq![NodeView::Text(p.description)],
        ),
    ]
}

/// The shape of the whole card. A present link selects the anchor variant,
/// whose activation target is the link verbatim and whose navigation context
/// keeps no back-reference; an absent link selects a plain block with the
/// same content.
pub open spec fn spec_project_card(p: RecentProjectView) -> NodeView {
    match p.link {
        Some(url) => spec_elem(
            "a"@,
            seq![
                spec_attr("href"@, url),
                spec_attr("target"@, "_blank"@),
                spec_attr("rel"@, "noopener noreferrer"@),
                spec_attr("class"@, linked_card_class()),
            ],
            spec_card_body(p),
        ),
        None => spec_elem(
            "div"@,
            seq![spec_attr("class"@, static_card_class())],
            spec_card_body(p),
        ),
    }
}

/// The title text displayed by a card shape.
pub open spec fn card_title(n: NodeView) -> Seq<char> {
    text_of(elem_children(elem_children(n)[0])[0])
}

/// The tag labels displayed by a card shape, in strip order.
pub open spec fn card_tags(n: NodeView) -> Seq<Seq<char>> {
    elem_children(elem_children(n)[1]).map_values(|s: NodeView| text_of(elem_children(s)[0]))
}

/// The description text displayed by a card shape.
pub open spec fn card_description(n: NodeView) -> Seq<char> {
    text_of(elem_children(elem_children(n)[2])[0])
}

/// The card of a record with a link is an anchor whose activation target is
/// the link verbatim, reachable as an interactive control, and opened
/// without granting the new context a reference back to this page.
pub proof fn lemma_linked_card_is_activatable(p: RecentProjectView, u: Seq<char>)
    requires
        p.link == Some(u),
    ensures
        elem_tag(spec_project_card(p)) == "a"@,
        has_attr(spec_project_card(p), "href"@, u),
        has_attr(spec_project_card(p), "target"@, "_blank"@),
        has_attr(spec_project_card(p), "rel"@, "noopener noreferrer"@),
{
    let card = spec_project_card(p);
    assert(elem_attrs(card)[0] == spec_attr("href"@, u));
    assert(elem_attrs(card)[1] == spec_attr("target"@, "_blank"@));
    assert(elem_attrs(card)[2] == spec_attr("rel"@, "noopener noreferrer"@));
}

/// Every card displays its record's title, its tag labels verbatim and in
/// record order, and its description — whichever variant the link selects.
pub proof fn lemma_card_content_faithful(p: RecentProjectView)
    ensures
        card_title(spec_project_card(p)) == p.title,
        card_tags(spec_project_card(p)) == p.tags,
        card_description(spec_project_card(p)) == p.description,
{
    assert(card_tags(spec_project_card(p)) =~= p.tags);
}

/// The tag strip holds exactly one label per tag, in input order, each
/// holding the tag's text verbatim.
pub proof fn lemma_tag_strip_one_label_per_tag(p: RecentProjectView)
    ensures
        elem_children(elem_children(spec_project_card(p))[1]).len() == p.tags.len(),
        forall|i: int|
            0 <= i < p.tags.len() ==> elem_children(elem_children(spec_project_card(p))[1])[i]
                == spec_tag_span(p.tags[i]),
        card_tags(spec_project_card(p)) == p.tags,
{
    lemma_card_content_faithful(p);
}

/// The card of a record without a link offers no activation control
/// anywhere in its fragment.
pub proof fn lemma_static_card_not_interactive(p: RecentProjectView)
    requires
        p.link is None,
    ensures
        has_no_activation(spec_project_card(p)),
{
    reveal_strlit("a");
    reveal_strlit("p");
    reveal_strlit("h3");
    reveal_strlit("div");
    reveal_strlit("span");
    reveal_strlit("class");
    reveal_strlit("href");
    let card = spec_project_card(p);
    let body = spec_card_body(p);
    assert("class"@.len() == 5);
    assert("href"@.len() == 4);
    assert("a"@.len() == 1);
    assert("h3"@.len() == 2);
    assert("div"@.len() == 3);
    assert("span"@.len() == 4);
    assert("p"@.len() == 1);
    assert("p"@[0] == 'p');
    assert("a"@[0] == 'a');
    assert("class"@ != "href"@);
    assert("h3"@ != "a"@);
    assert("div"@ != "a"@);
    assert("span"@ != "a"@);
    assert("p"@ != "a"@);
    assert forall|i: int| 0 <= i < elem_attrs(card).len() implies elem_attrs(card)[i].name
        != "href"@ by {
        assert(elem_attrs(card)[0] == spec_attr("class"@, static_card_class()));
    }
    assert(!has_attr_named(card, "href"@));
    assert forall|i: int| 0 <= i < elem_attrs(body[0]).len() implies elem_attrs(body[0])[i].name
        != "href"@ by {
        assert(elem_attrs(body[0])[0] == spec_attr("class"@, title_class()));
    }
    assert(!has_attr_named(body[0], "href"@));
    assert forall|i: int| 0 <= i < elem_children(body[0]).len() implies has_no_activation(
        #[trigger] elem_children(body[0])[i],
    ) by {
        assert(elem_children(body[0])[i] == NodeView::Text(p.title));
        assert(has_no_activation(NodeView::Text(p.title)));
    }
    assert(has_no_activation(body[0]));
    let strip = body[1];
    assert forall|i: int| 0 <= i < elem_attrs(strip).len() implies elem_attrs(strip)[i].name
        != "href"@ by {
        assert(elem_attrs(strip)[0] == spec_attr("class"@, tag_strip_class()));
    }
    assert(!has_attr_named(strip, "href"@));
    assert forall|i: int| 0 <= i < elem_children(strip).len() implies has_no_activation(
        #[trigger] elem_children(strip)[i],
    ) by {
        let span = spec_tag_span(p.tags[i]);
        assert(elem_children(strip)[i] == span);
        assert forall|j: int| 0 <= j < elem_attrs(span).len() implies elem_attrs(span)[j].name
            != "href"@ by {
            assert(elem_attrs(span)[0] == spec_attr("class"@, tag_label_class()));
        }
        assert(!has_attr_named(span, "href"@));
        assert forall|j: int| 0 <= j < elem_children(span).len() implies has_no_activation(
            #[trigger] elem_children(span)[j],
        ) by {
            assert(elem_children(span)[j] == NodeView::Text(p.tags[i]));
            assert(has_no_activation(NodeView::Text(p.tags[i])));
        }
        assert(has_no_activation(span));
    }
    assert(has_no_activation(strip));
    assert forall|i: int| 0 <= i < elem_attrs(body[2]).len() implies elem_attrs(body[2])[i].name
        != "href"@ by {
        assert(elem_attrs(body[2])[0] == spec_attr("class"@, description_class()));
    }
    assert(!has_attr_named(body[2], "href"@));
    assert forall|i: int| 0 <= i < elem_children(body[2]).len() implies has_no_activation(
        #[trigger] elem_children(body[2])[i],
    ) by {
        assert(elem_children(body[2])[i] == NodeView::Text(p.description));
        assert(has_no_activation(NodeView::Text(p.description)));
    }
    assert(has_no_activation(body[2]));
    assert forall|i: int| 0 <= i < elem_children(card).len() implies has_no_activation(
        #[trigger] elem_children(card)[i],
    ) by {
        assert(elem_children(card) == body);
    }
}

/// Two records that differ only in the link display identical title, tag
/// and description content: the variants render the same content.
pub proof fn lemma_variants_share_content(linked: RecentProjectView, plain: RecentProjectView)
    requires
        linked.title == plain.title,
        linked.tags == plain.tags,
        linked.description == plain.description,
    ensures
        card_title(spec_project_card(linked)) == card_title(spec_project_card(plain)),
        card_tags(spec_project_card(linked)) == card_tags(spec_project_card(plain)),
        card_description(spec_project_card(linked)) == card_description(spec_project_card(plain)),
{
    lemma_card_content_faithful(linked);
    lemma_card_content_faithful(plain);
}

/// Renders one project record as a card fragment.
#[allow(non_snake_case)]
pub fn RecentProjectCard(recent_project: RecentProject) -> (n: Node)
    ensures
        n@ == spec_project_card(recent_project@),
{
    let ghost p = recent_project@;
    let RecentProject { title, description, tags, link } = recent_project;

    let mut spans: Vec<Node> = Vec::new();
    let mut i: usize = 0;
    while i < tags.len()
        invariant
            i <= tags.len(),
            spans@.len() == i,
            p.tags == tags@.map_values(|t: String| t@),
            forall|j: int| 0 <= j < i ==> spans@[j]@ == spec_tag_span(p.tags[j]),
        decreases tags.len() - i,
    {
        let label = attr(
            "class",
            "bg-[#1a1a1a] border border-[#2a2a2a] px-2.5 py-1 rounded text-xs text-[#9ca3af]",
        );
        let span = elem("span", attrs1(label), nodes1(text(tags[i].as_str())));
        proof {
            assert(elem_attrs(span@) =~~= elem_attrs(spec_tag_span(p.tags[i as int])));
            assert(elem_children(span@) =~~= elem_children(spec_tag_span(p.tags[i as int])));
            assert(span@ =~= spec_tag_span(p.tags[i as int]));
        }
        spans.push(span);
        i += 1;
    }

    let heading = elem(
        "h3",
        attrs1(attr("class", "text-[#c46846] text-lg mb-3 font-semibold")),
        nodes1(text_owned(title)),
    );
    let strip = elem("div", attrs1(attr("class", "flex flex-wrap gap-2 mb-3")), spans);
    let paragraph = elem(
        "p",
        attrs1(attr("class", "text-[#b0b0b0] text-sm leading-relaxed")),
        nodes1(text_owned(description)),
    );
    proof {
        assert(elem_attrs(heading@) =~~= elem_attrs(spec_card_body(p)[0]));
        assert(elem_children(heading@) =~~= elem_children(spec_card_body(p)[0]));
        assert(heading@ =~= spec_card_body(p)[0]);
        assert(elem_attrs(strip@) =~~= elem_attrs(spec_card_body(p)[1]));
        assert(elem_children(strip@) =~~= elem_children(spec_card_body(p)[1]));
        assert(strip@ =~= spec_card_body(p)[1]);
        assert(elem_attrs(paragraph@) =~~= elem_attrs(spec_card_body(p)[2]));
        assert(elem_children(paragraph@) =~~= elem_children(spec_card_body(p)[2]));
        assert(paragraph@ =~= spec_card_body(p)[2]);
    }
    let body = nodes3(heading, strip, paragraph);
    proof {
        assert(node_views(body@) =~= spec_card_body(p));
    }

    match link {
        Some(url) => {
            let attrs = attrs4(
                attr("href", url.as_str()),
                attr("target", "_blank"),
                attr("rel", "noopener noreferrer"),
                attr(
                    "class",
                    "bg-[#111111] border border-[#1f1f1f] rounded-xl p-6 hover:border-[#2a2a2a] hover:-translate-y-1 transition-all duration-300 block focus:outline-none focus:ring-2 focus:ring-[#c46846] focus:ring-offset-2 focus:ring-offset-[#0a0a0a]",
                ),
            );
            let n = elem("a", attrs, body);
            proof {
                assert(n@ =~~= spec_project_card(p));
            }
            n
        },
        None => {
            let attrs = attrs1(attr(
                "class",
                "bg-[#111111] border border-[#1f1f1f] rounded-xl p-6 transition-all duration-300 block",
            ));
            let n = elem("div", attrs, body);
            proof {
                assert(n@ =~~= spec_project_card(p));
            }
            n
        },
    }
}

} // verus!
