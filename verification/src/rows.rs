//! Pages that list the months by position.
//!
//! Such a page has one label row and one detail row for each place of the
//! ranking and marks no tier: the place of a month in the list decides its
//! rank. What is read is handed on as the fragment that a page with marked
//! blocks would hold for the month.
use vstd::prelude::*;
use crate::extract::first_of;
use crate::extract::texts_in;
use crate::extract::texts_of;
use crate::fortune::first_text;
use crate::fortune::ExtractionError;
use crate::fortune::Fragment;
use crate::fortune::FragmentView;
use crate::input::diagnose_month;
use crate::input::integer_of;
use crate::input::month_of;
use crate::input::InputFault;
use crate::page::nested_text_nodes;
use crate::page::select_nested_text_nodes;
use crate::text::decimal;
use crate::text::push_decimal;

verus! {

/// The rank that stands at a place of the list, places counted from 0: the
/// list begins with rank 2, goes on to rank 12 and ends with rank 1.
pub open spec fn rank_at(place: int) -> Option<int> {
    if 0 <= place <= 10 {
        Some(place + 2)
    } else if place == 11 {
        Some(1)
    } else {
        None
    }
}

/// The marker that stands for a rank: rank 1 is the first tier, ranks 2 to
/// 6 the second, ranks 7 to 11 the third, and any other rank has none.
pub open spec fn marker_of_rank(rank: int) -> Option<Seq<char>> {
    if rank == 1 {
        Some("type1"@)
    } else if 2 <= rank <= 6 {
        Some("type2"@)
    } else if 7 <= rank <= 11 {
        Some("type3"@)
    } else {
        None
    }
}

/// A rank as it is shown: its number and the counter for places.
pub open spec fn rank_label_of(rank: int) -> Seq<char> {
    decimal(rank as nat) + "位"@
}

/// The text of a row's month label: the first text node of the first
/// month label in the row.
pub open spec fn row_label(labels: Seq<Seq<Seq<char>>>) -> Option<Seq<char>> {
    first_text(texts_of(Some(labels)))
}

/// Whether a row says which month it is for: it has a month label, and the
/// label writes an integer.
pub open spec fn row_readable(labels: Seq<Seq<Seq<char>>>) -> bool {
    match row_label(labels) {
        Some(text) => integer_of(text).is_some(),
        None => false,
    }
}

/// Whether every row says which month it is for.
pub open spec fn rows_readable(rows: Seq<Seq<Seq<Seq<char>>>>) -> bool {
    forall|i: int| 0 <= i < rows.len() ==> row_readable(#[trigger] rows[i])
}

/// The month that the label of a row names, if it names one of the twelve.
pub open spec fn row_month(labels: Seq<Seq<Seq<char>>>) -> Option<int> {
    match row_label(labels) {
        Some(text) => match month_of(text) {
            Ok(m) => Some(m),
            Err(_) => None,
        },
        None => None,
    }
}

/// The first place from `from` on whose row names the month.
pub open spec fn place_of(rows: Seq<Seq<Seq<Seq<char>>>>, month: int, from: int) -> Option<int>
    decreases rows.len() - from,
{
    if from < 0 || from >= rows.len() {
        None
    } else if row_month(rows[from]) == Some(month) {
        Some(from)
    } else {
        place_of(rows, month, from + 1)
    }
}

/// The place of a month in a list of label rows. A list in which some row
/// does not say which month it is for is `MalformedPage`, wherever that row
/// stands; a list in which no row names the month is `NotFound`.
pub open spec fn place_in(rows: Seq<Seq<Seq<Seq<char>>>>, month: int) -> Result<
    int,
    ExtractionError,
> {
    if !rows_readable(rows) {
        Err(ExtractionError::MalformedPage)
    } else {
        match place_of(rows, month, 0) {
            Some(place) => Ok(place),
            None => Err(ExtractionError::NotFound),
        }
    }
}

/// The text of every element that was selected in the row at a place, in
/// page order; nothing where there is no such row.
pub open spec fn texts_at(rows: Option<Seq<Seq<Seq<Seq<char>>>>>, place: int) -> Seq<
    Option<Seq<char>>,
> {
    match rows {
        Some(rows) => if 0 <= place < rows.len() {
            texts_of(Some(rows[place]))
        } else {
            Seq::empty()
        },
        None => Seq::empty(),
    }
}

/// The fragment that stands for a place: the marker and the label of the
/// rank at that place, the paragraphs of the detail row, and the lucky
/// colour. A place past the twelfth has no rank: `MalformedPage`.
pub open spec fn fragment_at(
    place: int,
    paragraphs: Seq<Option<Seq<char>>>,
    lucky_color: Option<Seq<char>>,
) -> Result<FragmentView, ExtractionError> {
    match rank_at(place) {
        None => Err(ExtractionError::MalformedPage),
        Some(rank) => Ok(
            FragmentView {
                marker: marker_of_rank(rank),
                rank_label: Some(rank_label_of(rank)),
                paragraphs,
                lucky_color,
            },
        ),
    }
}

/// What a page that lists the months by position holds for a month.
///
/// The month's place is that of the first label row that names it. The
/// paragraphs are those of the detail row at the same place, so that the
/// description is the last of them; the lucky colour is the first `div` in
/// that row. A page without label rows, or without one for the month, is
/// `NotFound`; a label row that does not say which month it is for is
/// `MalformedPage`.
pub open spec fn row_fragment(page: Seq<char>, month: int) -> Result<FragmentView, ExtractionError> {
    match nested_text_nodes(page, "div[class=\"row1\"]"@, "p[class=\"month\"]"@) {
        None => Err(ExtractionError::NotFound),
        Some(rows) => match place_in(rows, month) {
            Err(e) => Err(e),
            Ok(place) => fragment_at(
                place,
                texts_at(nested_text_nodes(page, "div[class=\"row2\"]"@, "p"@), place),
                first_text(
                    texts_at(nested_text_nodes(page, "div[class=\"row2\"]"@, "div"@), place),
                ),
            ),
        },
    }
}

/// A result with its place taken as a mathematical integer.
pub open spec fn place_view(r: Result<usize, ExtractionError>) -> Result<int, ExtractionError> {
    match r {
        Ok(place) => Ok(place as int),
        Err(e) => Err(e),
    }
}

/// A result with its fragment taken by its view.
pub open spec fn located_view(r: Result<Fragment, ExtractionError>) -> Result<
    FragmentView,
    ExtractionError,
> {
    match r {
        Ok(f) => Ok(f@),
        Err(e) => Err(e),
    }
}

/// The rank that stands at a place of the list.
pub fn display_rank(place: usize) -> (r: Option<u8>)
    ensures
        match r {
            Some(rank) => rank_at(place as int) == Some(rank as int),
            None => rank_at(place as int).is_none(),
        },
{
    if place <= 10 {
        Some((place + 2) as u8)
    } else if place == 11 {
        Some(1)
    } else {
        None
    }
}

/// The marker that stands for a rank.
pub fn rank_marker(rank: u8) -> (r: Option<String>)
    ensures
        r.deep_view() == marker_of_rank(rank as int),
{
    if rank == 1 {
        Some("type1".to_owned())
    } else if 2 <= rank && rank <= 6 {
        Some("type2".to_owned())
    } else if 7 <= rank && rank <= 11 {
        Some("type3".to_owned())
    } else {
        None
    }
}

/// A rank as it is shown.
pub fn rank_label(rank: u8) -> (r: String)
    ensures
        r@ == rank_label_of(rank as int),
{
    let mut out = String::new();
    push_decimal(&mut out, rank as u32);
    out.push_str("位");
    assert(out@ =~= rank_label_of(rank as int));
    out
}

/// The place of a month in a list of label rows.
pub fn find_place(rows: &Vec<Vec<Vec<String>>>, month: u8) -> (r: Result<usize, ExtractionError>)
    ensures
        place_view(r) == place_in(rows.deep_view(), month as int),
{
    let mut found: Option<usize> = None;
    let mut i: usize = 0;
    while i < rows.len()
        invariant
            i <= rows@.len(),
            forall|k: int| 0 <= k < i ==> row_readable(#[trigger] rows.deep_view()[k]),
            match found {
                Some(place) => place < i && place_of(rows.deep_view(), month as int, 0) == Some(
                    place as int,
                ),
                None => place_of(rows.deep_view(), month as int, 0) == place_of(
                    rows.deep_view(),
                    month as int,
                    i as int,
                ),
            },
        decreases rows@.len() - i,
    {
        assert(rows.deep_view()[i as int] == rows@[i as int].deep_view());
        let label = match first_of(&texts_in(&rows[i])) {
            Some(label) => label,
            None => { return Err(ExtractionError::MalformedPage); },
        };
        match diagnose_month(label.as_str()) {
            Ok(m) => {
                if found.is_none() && m == month as i32 {
                    found = Some(i);
                }
            },
            Err(InputFault::OutOfRange) => {},
            Err(_) => { return Err(ExtractionError::MalformedPage); },
        }
        i += 1;
    }
    match found {
        Some(place) => Ok(place),
        None => Err(ExtractionError::NotFound),
    }
}

/// The text of every element that was selected in the row at a place.
pub fn row_texts(rows: &Option<Vec<Vec<Vec<String>>>>, place: usize) -> (r: Vec<Option<String>>)
    ensures
        r.deep_view() == texts_at(rows.deep_view(), place as int),
{
    match rows {
        Some(rows) => {
            if place < rows.len() {
                assert(rows.deep_view()[place as int] == rows@[place as int].deep_view());
                texts_in(&rows[place])
            } else {
                let none: Vec<Option<String>> = Vec::new();
                assert(none.deep_view() =~= Seq::<Option<Seq<char>>>::empty());
                none
            }
        },
        None => {
            let none: Vec<Option<String>> = Vec::new();
            assert(none.deep_view() =~= Seq::<Option<Seq<char>>>::empty());
            none
        },
    }
}

/// Makes the fragment that stands for a place of the list.
pub fn fragment_of_place(
    place: usize,
    paragraphs: Vec<Option<String>>,
    lucky_color: Option<String>,
) -> (r: Result<Fragment, ExtractionError>)
    ensures
        located_view(r) == fragment_at(
            place as int,
            paragraphs.deep_view(),
            lucky_color.deep_view(),
        ),
{
    match display_rank(place) {
        Some(rank) => Ok(
            Fragment {
                marker: rank_marker(rank),
                rank_label: Some(rank_label(rank)),
                paragraphs,
                lucky_color,
            },
        ),
        None => Err(ExtractionError::MalformedPage),
    }
}

/// Reads what a page that lists the months by position holds for a month.
pub fn read_row_fragment(page: &str, month: u8) -> (r: Result<Fragment, ExtractionError>)
    ensures
        located_view(r) == row_fragment(page@, month as int),
{
    let rows = match select_nested_text_nodes(page, "div[class=\"row1\"]", "p[class=\"month\"]") {
        Some(rows) => rows,
        None => { return Err(ExtractionError::NotFound); },
    };
    let place = match find_place(&rows, month) {
        Ok(place) => place,
        Err(e) => { return Err(e); },
    };
    let paragraphs = row_texts(&select_nested_text_nodes(page, "div[class=\"row2\"]", "p"), place);
    let colors = row_texts(&select_nested_text_nodes(page, "div[class=\"row2\"]", "div"), place);
    fragment_of_place(place, paragraphs, first_of(&colors))
}

} // verus!
