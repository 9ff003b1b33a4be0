//! End-to-end checks of the rendered markup trees.

use portfolio_ui::Attr;
use portfolio_ui::Footer;
use portfolio_ui::Home;
use portfolio_ui::Layout;
use portfolio_ui::Node;
use portfolio_ui::RecentProject;
use portfolio_ui::RecentProjectCard;
use portfolio_ui::RecentProjects;

fn elem_parts(n: &Node) -> (&str, &Vec<Attr>, &Vec<Node>) {
    match n {
        Node::Elem { tag, attrs, children } => (tag.as_str(), attrs, children),
        Node::Text(_) => panic!("expected an element, found text"),
    }
}

fn text_content(n: &Node) -> &str {
    match n {
        Node::Text(s) => s.as_str(),
        Node::Elem { .. } => panic!("expected text, found an element"),
    }
}

fn attr_value<'a>(attrs: &'a [Attr], name: &str) -> Option<&'a str> {
    attrs
        .iter()
        .find(|a| a.name == name)
        .map(|a| a.value.as_str())
}

fn project(title: &str, description: &str, tags: &[&str], link: Option<&str>) -> RecentProject {
    RecentProject {
        title: title.to_string(),
        description: description.to_string(),
        tags: tags.iter().map(|t| t.to_string()).collect(),
        link: link.map(|u| u.to_string()),
    }
}

fn card_titles(grid_children: &[Node]) -> Vec<String> {
    grid_children
        .iter()
        .map(|card| {
            let (_, _, children) = elem_parts(card);
            let (h3_tag, _, h3_children) = elem_parts(&children[0]);
            assert_eq!(h3_tag, "h3");
            text_content(&h3_children[0]).to_string()
        })
        .collect()
}

#[test]
fn alpha_linked_card_is_an_anchor_with_full_content() {
    let p = project("Alpha", "A tool", &["rust", "cli"], Some("https://x.io"));
    let card = RecentProjectCard(p);
    let (tag, attrs, children) = elem_parts(&card);
    assert_eq!(tag, "a");
    assert_eq!(attr_value(attrs, "href"), Some("https://x.io"));
    assert_eq!(attr_value(attrs, "target"), Some("_blank"));
    assert_eq!(attr_value(attrs, "rel"), Some("noopener noreferrer"));
    assert!(attr_value(attrs, "class").is_some());
    assert_eq!(children.len(), 3);
    let (h3_tag, _, h3_children) = elem_parts(&children[0]);
    assert_eq!(h3_tag, "h3");
    assert_eq!(text_content(&h3_children[0]), "Alpha");
    let (strip_tag, _, strip_children) = elem_parts(&children[1]);
    assert_eq!(strip_tag, "div");
    assert_eq!(strip_children.len(), 2);
    let (span_tag, _, span_children) = elem_parts(&strip_children[0]);
    assert_eq!(span_tag, "span");
    assert_eq!(text_content(&span_children[0]), "rust");
    let (_, _, span2_children) = elem_parts(&strip_children[1]);
    assert_eq!(text_content(&span2_children[0]), "cli");
    let (p_tag, _, p_children) = elem_parts(&children[2]);
    assert_eq!(p_tag, "p");
    assert_eq!(text_content(&p_children[0]), "A tool");
}

#[test]
fn beta_static_card_has_no_activation_control() {
    let p = project("Beta", "", &[], None);
    let card = RecentProjectCard(p);
    let (tag, attrs, children) = elem_parts(&card);
    assert_eq!(tag, "div");
    assert_eq!(attrs.len(), 1);
    assert_eq!(attrs[0].name, "class");
    assert!(attr_value(attrs, "href").is_none());
    assert_eq!(children.len(), 3);
    let (_, _, h3_children) = elem_parts(&children[0]);
    assert_eq!(text_content(&h3_children[0]), "Beta");
    let (_, _, strip_children) = elem_parts(&children[1]);
    assert_eq!(strip_children.len(), 0);
    let (_, _, p_children) = elem_parts(&children[2]);
    assert_eq!(text_content(&p_children[0]), "");
}

#[test]
fn both_variants_display_identical_content() {
    let linked = RecentProjectCard(project("T", "D", &["a", "b"], Some("u")));
    let plain = RecentProjectCard(project("T", "D", &["a", "b"], None));
    let (_, _, linked_children) = elem_parts(&linked);
    let (_, _, plain_children) = elem_parts(&plain);
    for i in 0..3 {
        let (lt, _, lc) = elem_parts(&linked_children[i]);
        let (pt, _, pc) = elem_parts(&plain_children[i]);
        assert_eq!(lt, pt);
        assert_eq!(lc.len(), pc.len());
    }
    let (_, _, l_strip) = elem_parts(&linked_children[1]);
    let (_, _, p_strip) = elem_parts(&plain_children[1]);
    for i in 0..2 {
        let (_, _, ls) = elem_parts(&l_strip[i]);
        let (_, _, ps) = elem_parts(&p_strip[i]);
        assert_eq!(text_content(&ls[0]), text_content(&ps[0]));
    }
}

#[test]
fn empty_section_keeps_heading_and_empty_grid() {
    let section = RecentProjects(Vec::new());
    let (tag, attrs, children) = elem_parts(&section);
    assert_eq!(tag, "section");
    assert_eq!(attr_value(attrs, "id"), Some("projects"));
    let (_, _, container_children) = elem_parts(&children[0]);
    let (h2_tag, _, h2_children) = elem_parts(&container_children[0]);
    assert_eq!(h2_tag, "h2");
    assert_eq!(text_content(&h2_children[0]), "Recent Projects");
    let (grid_tag, _, grid_children) = elem_parts(&container_children[1]);
    assert_eq!(grid_tag, "div");
    assert_eq!(grid_children.len(), 0);
}

#[test]
fn section_renders_one_card_per_record_in_order() {
    let records = vec![
        project("One", "", &[], None),
        project("Two", "", &[], Some("https://two.example")),
        project("Three", "", &[], None),
    ];
    let section = RecentProjects(records);
    let (_, _, children) = elem_parts(&section);
    let (_, _, container_children) = elem_parts(&children[0]);
    let (_, _, grid_children) = elem_parts(&container_children[1]);
    assert_eq!(grid_children.len(), 3);
    assert_eq!(card_titles(grid_children), vec!["One", "Two", "Three"]);
}

#[test]
fn reordering_records_reorders_cards_identically() {
    let forward = RecentProjects(vec![
        project("One", "", &[], None),
        project("Two", "", &[], None),
    ]);
    let backward = RecentProjects(vec![
        project("Two", "", &[], None),
        project("One", "", &[], None),
    ]);
    let (_, _, f_children) = elem_parts(&forward);
    let (_, _, f_container) = elem_parts(&f_children[0]);
    let (_, _, f_grid) = elem_parts(&f_container[1]);
    let (_, _, b_children) = elem_parts(&backward);
    let (_, _, b_container) = elem_parts(&b_children[0]);
    let (_, _, b_grid) = elem_parts(&b_container[1]);
    assert_eq!(card_titles(f_grid), vec!["One", "Two"]);
    assert_eq!(card_titles(b_grid), vec!["Two", "One"]);
}

#[test]
fn duplicate_tags_render_one_label_each_in_order() {
    let card = RecentProjectCard(project("T", "", &["x", "x", "y"], None));
    let (_, _, children) = elem_parts(&card);
    let (_, _, strip_children) = elem_parts(&children[1]);
    assert_eq!(strip_children.len(), 3);
    let labels: Vec<&str> = strip_children
        .iter()
        .map(|s| {
            let (tag, _, sc) = elem_parts(s);
            assert_eq!(tag, "span");
            text_content(&sc[0])
        })
        .collect();
    assert_eq!(labels, vec!["x", "x", "y"]);
}

#[test]
fn footer_shows_attribution_and_year() {
    let footer = Footer(2025);
    let (tag, _, children) = elem_parts(&footer);
    assert_eq!(tag, "footer");
    let (_, _, wrapper_children) = elem_parts(&children[0]);
    let (p_tag, _, p_children) = elem_parts(&wrapper_children[0]);
    assert_eq!(p_tag, "p");
    assert_eq!(text_content(&p_children[0]), "Matt B © 2025");
}

#[test]
fn layout_orders_navbar_content_footer() {
    let nav = Node::Text("nav".to_string());
    let content = Node::Text("content".to_string());
    let page = Layout(nav, content, 2024);
    assert_eq!(page.len(), 3);
    assert_eq!(text_content(&page[0]), "nav");
    assert_eq!(text_content(&page[1]), "content");
    let (tag, _, footer_children) = elem_parts(&page[2]);
    assert_eq!(tag, "footer");
    let (_, _, wrapper_children) = elem_parts(&footer_children[0]);
    let (_, _, p_children) = elem_parts(&wrapper_children[0]);
    assert_eq!(text_content(&p_children[0]), "Matt B © 2024");
}

#[test]
fn home_composes_hero_then_projects_section() {
    let hero = Node::Text("hero".to_string());
    let page = Home(hero, vec![project("Solo", "", &[], None)]);
    assert_eq!(page.len(), 2);
    assert_eq!(text_content(&page[0]), "hero");
    let (tag, _, children) = elem_parts(&page[1]);
    assert_eq!(tag, "section");
    let (_, _, container_children) = elem_parts(&children[0]);
    let (_, _, grid_children) = elem_parts(&container_children[1]);
    assert_eq!(card_titles(grid_children), vec!["Solo"]);
}
