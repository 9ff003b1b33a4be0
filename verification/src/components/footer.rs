//! The footer: one centered line holding a fixed attribution and the
//! current year. The year is read from the host environment by the caller
//! and passed in; rendering it is pure.

use crate::markup::attr;
use crate::markup::attrs1;
use crate::markup::elem;
use crate::markup::elem_attrs;
use crate::markup::elem_children;
use crate::markup::nodes1;
use crate::markup::spec_attr;
use crate::markup::spec_elem;
use crate::markup::text_owned;
use crate::markup::Node;
use crate::markup::NodeView;
use crate::numeral::dec_digits;
use crate::numeral::decimal_string;
use vstd::prelude::*;
use vstd::string::StringExecFns;

verus! {

/// Styling tokens of the footer container.
pub open spec fn footer_class() -> Seq<char> {
    "py-12 md:py-16 text-center"@
}

/// Styling tokens of the centering wrapper.
pub open spec fn footer_container_class() -> Seq<char> {
    "max-w-[1200px] mx-auto px-5 md:px-8"@
}

/// Styling tokens of the attribution line.
pub open spec fn footer_line_class() -> Seq<char> {
    "text-[#6b7280] text-sm"@
}

/// The attribution line: the fixed text followed by the year's numeral.
pub open spec fn spec_footer_text(year: u64) -> Seq<char> {
    "Matt B © "@ + dec_digits(year as int)
}

/// The shape of the footer for a given year.
pub open spec fn spec_footer(year: u64) -> NodeView {
    spec_elem(
        "footer"@,
        seq![spec_attr("class"@, footer_class())],
        seq![
            spec_elem(
                "div"@,
                seq![spec_attr("class"@, footer_container_class())],
                seq![
                    spec_elem(
                        "p"@,
                        seq![spec_attr("class"@, footer_line_class())],
                        seq![NodeView::Text(spec_footer_text(year))],
                    ),
                ],
            ),
        ],
    )
}

/// Renders the footer for the given year.
#[allow(non_snake_case)]
pub fn Footer(year: u64) -> (n: Node)
    ensures
        n@ == spec_footer(year),
{
    let digits = decimal_string(year);
    let mut line = "Matt B © ".to_owned();
    line.append(digits.as_str());
    proof {
        assert(line@ == spec_footer_text(year));
    }

    let ghost target = spec_footer(year);
    let ghost t_wrapper = elem_children(target)[0];
    let ghost t_line = elem_children(t_wrapper)[0];

    let paragraph = elem(
        "p",
        attrs1(attr("class", "text-[#6b7280] text-sm")),
        nodes1(text_owned(line)),
    );
    proof {
        assert(elem_attrs(paragraph@) =~~= elem_attrs(t_line));
        assert(elem_children(paragraph@) =~~= elem_children(t_line));
        assert(paragraph@ =~= t_line);
    }
    let wrapper = elem(
        "div",
        attrs1(attr("class", "max-w-[1200px] mx-auto px-5 md:px-8")),
        nodes1(paragraph),
    );
    proof {
        assert(elem_attrs(wrapper@) =~~= elem_attrs(t_wrapper));
        assert(elem_children(wrapper@) =~~= elem_children(t_wrapper));
        assert(wrapper@ =~= t_wrapper);
    }
    let n = elem("footer", attrs1(attr("class", "py-12 md:py-16 text-center")), nodes1(wrapper));
    proof {
        assert(elem_attrs(n@) =~~= elem_attrs(target));
        assert(elem_children(n@) =~~= elem_children(target));
        assert(n@ =~= target);
    }
    n
}

} // verus!
