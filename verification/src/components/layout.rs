//! The page shell: the navigation region, then the routed content region,
//! then the footer, top to bottom. Which view fills the content region is
//! the router's business; the navigation fragment is likewise supplied by
//! the caller. Layout only declares where each region stands.

use crate::components::footer::spec_footer;
use crate::components::footer::Footer;
use crate::markup::node_views;
use crate::markup::nodes3;
use crate::markup::Node;
use vstd::prelude::*;

verus! {

/// Composes the page shell around the router-selected content: navigation,
/// content and footer, in that order, each passed through unchanged. The
/// year shown in the footer is read from the host environment by the caller.
#[allow(non_snake_case)]
pub fn Layout(navbar: Node, content: Node, year: u64) -> (v: Vec<Node>)
    ensures
        node_views(v@) == seq![navbar@, content@, spec_footer(year)],
{
    let footer = Footer(year);
    let v = nodes3(navbar, content, footer);
    proof {
        assert(node_views(v@) =~= seq![navbar@, content@, spec_footer(year)]);
    }
    v
}

} // verus!
