//! From the text of a page to the fortune of a month.
use vstd::prelude::*;
use crate::fortune::copy_text;
use crate::fortune::first_text;
use crate::fortune::fortune_text;
use crate::fortune::fragment_view;
use crate::fortune::text_view;
use crate::fortune::ExtractionError;
use crate::fortune::FortuneRecord;
use crate::fortune::Fragment;
use crate::fortune::FragmentView;
use crate::fortune::LabelStyle;
use crate::page::find_matches;
use crate::page::pattern_matches;
use crate::page::select_attribute;
use crate::page::select_text_nodes;
use crate::page::selected_attributes;
use crate::page::selected_text_nodes;
use crate::rows::located_view;
use crate::rows::read_row_fragment;
use crate::rows::row_fragment;
use crate::text::decimal;
use crate::text::push_decimal;

verus! {

/// The selector of a month's block: the `div` whose id is `month` followed
/// by the month's number.
pub open spec fn fragment_selector(month: int) -> Seq<char> {
    "div#month"@ + decimal(month as nat)
}

/// The first text node of an element, if it has one.
pub open spec fn leading_text(nodes: Seq<Seq<char>>) -> Option<Seq<char>> {
    if nodes.len() > 0 {
        Some(nodes[0])
    } else {
        None
    }
}

/// The text of each selected element: its first text node. A selection that
/// failed counts as one that found nothing.
pub open spec fn texts_of(found: Option<Seq<Seq<Seq<char>>>>) -> Seq<Option<Seq<char>>> {
    match found {
        Some(elements) => Seq::new(elements.len(), |i: int| leading_text(elements[i])),
        None => Seq::empty(),
    }
}

/// What a page holds for a month: nothing where no element has the month's
/// id, else the first such element's marker, and from below an element with
/// that id the text of the first rank label, of every paragraph and of the
/// first lucky colour element.
pub open spec fn fragment_on_page(page: Seq<char>, month: int) -> Option<FragmentView> {
    let base = fragment_selector(month);
    match selected_attributes(page, base, "class"@) {
        Some(markers) => if markers.len() > 0 {
            Some(
                FragmentView {
                    marker: markers[0],
                    rank_label: first_text(
                        texts_of(selected_text_nodes(page, base + " p.rankTxt"@)),
                    ),
                    paragraphs: texts_of(selected_text_nodes(page, base + " p"@)),
                    lucky_color: first_text(
                        texts_of(selected_text_nodes(page, base + " div#color"@)),
                    ),
                },
            )
        } else {
            None
        },
        None => None,
    }
}

/// The runs of digits in a date line, from left to right. White space
/// around the line needs no removing first: none of it is a digit.
pub open spec fn digit_runs(line: Seq<char>) -> Seq<Seq<char>> {
    match pattern_matches("\\d+"@, line) {
        Some(runs) => runs,
        None => Seq::empty(),
    }
}

/// The runs of digits in the page's date line, the first paragraph whose
/// class is exactly `date`; none where the page has no date line.
pub open spec fn date_runs_on_page(page: Seq<char>) -> Seq<Seq<char>> {
    match first_text(texts_of(selected_text_nodes(page, "p[class=\"date\"]"@))) {
        Some(line) => digit_runs(line),
        None => Seq::empty(),
    }
}

/// How a page addresses the block of a month.
#[derive(Clone, Copy, Debug, PartialEq, Eq, Structural)]
pub enum Addressing {
    /// Each block carries the month in its element id and its tier in its
    /// marker.
    ById,
    /// The blocks are rows of a list, and the place in the list is the rank.
    ByRow,
}

/// What a page holds for a month under an addressing, or why nothing was
/// found.
pub open spec fn located(addressing: Addressing, page: Seq<char>, month: int) -> Result<
    FragmentView,
    ExtractionError,
> {
    match addressing {
        Addressing::ById => match fragment_on_page(page, month) {
            Some(f) => Ok(f),
            None => Err(ExtractionError::NotFound),
        },
        Addressing::ByRow => row_fragment(page, month),
    }
}

/// The fortune that a page gives for a month.
pub open spec fn fortune_on_page(
    style: LabelStyle,
    addressing: Addressing,
    page: Seq<char>,
    month: int,
) -> Result<Seq<char>, ExtractionError> {
    if !(1 <= month <= 12) {
        Err(ExtractionError::InvalidInput)
    } else {
        match located(addressing, page, month) {
            Ok(f) => fortune_text(style, month, Some(f), date_runs_on_page(page)),
            Err(e) => Err(e),
        }
    }
}

/// The text of each of some elements, given by their text nodes.
pub fn texts_in(elements: &Vec<Vec<String>>) -> (r: Vec<Option<String>>)
    ensures
        r.deep_view() == texts_of(Some(elements.deep_view())),
{
    let mut out: Vec<Option<String>> = Vec::new();
    let mut i: usize = 0;
    while i < elements.len()
        invariant
            i <= elements@.len(),
            out@.len() == i,
            forall|k: int|
                0 <= k < i ==> #[trigger] out@[k].deep_view() == leading_text(
                    elements@[k].deep_view(),
                ),
        decreases elements@.len() - i,
    {
        let nodes = &elements[i];
        if nodes.len() > 0 {
            out.push(Some(nodes[0].clone()));
        } else {
            out.push(None);
        }
        i += 1;
    }
    assert(out.deep_view() =~= texts_of(Some(elements.deep_view())));
    out
}

/// The text of each selected element.
pub fn element_texts(found: &Option<Vec<Vec<String>>>) -> (r: Vec<Option<String>>)
    ensures
        r.deep_view() == texts_of(found.deep_view()),
{
    match found {
        None => {
            let out: Vec<Option<String>> = Vec::new();
            assert(out.deep_view() =~= texts_of(found.deep_view()));
            out
        },
        Some(elements) => texts_in(elements),
    }
}

/// The first of a list of optional texts, if it is a text.
pub fn first_of(texts: &Vec<Option<String>>) -> (r: Option<String>)
    ensures
        r.deep_view() == first_text(texts.deep_view()),
{
    if texts.len() > 0 {
        copy_text(&texts[0])
    } else {
        None
    }
}

/// Reads what a page holds for a month.
pub fn read_fragment(page: &str, month: u8) -> (r: Option<Fragment>)
    ensures
        fragment_view(r) == fragment_on_page(page@, month as int),
{
    let mut base = String::new();
    base.push_str("div#month");
    push_decimal(&mut base, month as u32);
    assert(base@ =~= fragment_selector(month as int));
    let markers = match select_attribute(page, base.as_str(), "class") {
        Some(markers) => markers,
        None => { return None; },
    };
    if markers.len() == 0 {
        return None;
    }
    let mut rank_selector = base.clone();
    rank_selector.push_str(" p.rankTxt");
    let mut paragraph_selector = base.clone();
    paragraph_selector.push_str(" p");
    let mut color_selector = base.clone();
    color_selector.push_str(" div#color");
    let labels = element_texts(&select_text_nodes(page, rank_selector.as_str()));
    let colors = element_texts(&select_text_nodes(page, color_selector.as_str()));
    Some(
        Fragment {
            marker: copy_text(&markers[0]),
            rank_label: first_of(&labels),
            paragraphs: element_texts(&select_text_nodes(page, paragraph_selector.as_str())),
            lucky_color: first_of(&colors),
        },
    )
}

/// The runs of digits in a date line.
pub fn read_digit_runs(line: &str) -> (r: Vec<String>)
    ensures
        r.deep_view() == digit_runs(line@),
{
    match find_matches("\\d+", line) {
        Some(runs) => runs,
        None => {
            let none: Vec<String> = Vec::new();
            assert(none.deep_view() =~= Seq::<Seq<char>>::empty());
            none
        },
    }
}

/// Reads the runs of digits in a page's date line.
pub fn read_date_runs(page: &str) -> (r: Vec<String>)
    ensures
        r.deep_view() == date_runs_on_page(page@),
{
    let lines = element_texts(&select_text_nodes(page, "p[class=\"date\"]"));
    match first_of(&lines) {
        Some(line) => read_digit_runs(line.as_str()),
        None => {
            let none: Vec<String> = Vec::new();
            assert(none.deep_view() =~= Seq::<Seq<char>>::empty());
            none
        },
    }
}

/// Renders the fortune of a month from what a page holds for it and from the
/// digit runs of the page's date.
///
/// A month outside 1 to 12 is `InvalidInput`, no fragment is `NotFound`, and
/// a fragment or a date that lacks what the text needs is `MalformedPage`.
pub fn render_fortune(
    style: LabelStyle,
    month: i32,
    fragment: &Option<Fragment>,
    runs: &Vec<String>,
) -> (r: Result<String, ExtractionError>)
    ensures
        text_view(r) == fortune_text(
            style,
            month as int,
            fragment_view(*fragment),
            runs.deep_view(),
        ),
{
    if month < 1 || month > 12 {
        return Err(ExtractionError::InvalidInput);
    }
    match FortuneRecord::from_fragment(month as u8, fragment, runs) {
        Ok(record) => Ok(record.render(style)),
        Err(e) => Err(e),
    }
}

/// Finds what a page holds for a month under an addressing.
pub fn locate(addressing: Addressing, page: &str, month: u8) -> (r: Result<
    Fragment,
    ExtractionError,
>)
    ensures
        located_view(r) == located(addressing, page@, month as int),
{
    match addressing {
        Addressing::ById => match read_fragment(page, month) {
            Some(f) => Ok(f),
            None => Err(ExtractionError::NotFound),
        },
        Addressing::ByRow => read_row_fragment(page, month),
    }
}

/// The fortune that the text of a page gives for a month.
///
/// A month outside 1 to 12 is refused with `InvalidInput` before the page is
/// looked at.
pub fn extract_fortune(style: LabelStyle, addressing: Addressing, page: &str, month: i32) -> (r:
    Result<String, ExtractionError>)
    ensures
        text_view(r) == fortune_on_page(style, addressing, page@, month as int),
{
    if month < 1 || month > 12 {
        return Err(ExtractionError::InvalidInput);
    }
    match locate(addressing, page, month as u8) {
        Ok(f) => {
            let runs = read_date_runs(page);
            render_fortune(style, month, &Some(f), &runs)
        },
        Err(e) => Err(e),
    }
}

} // verus!
