//! What holds of every fortune, stated over the functions that define it.
use vstd::prelude::*;
use crate::extract::fortune_on_page;
use crate::extract::fragment_on_page;
use crate::extract::located;
use crate::extract::Addressing;
use crate::rows::fragment_at;
use crate::rows::marker_of_rank;
use crate::rows::place_in;
use crate::rows::rank_at;
use crate::rows::row_readable;
use crate::fortune::carries_rank;
use crate::fortune::fortune_text;
use crate::fortune::last_text;
use crate::fortune::rank_text;
use crate::fortune::record_of;
use crate::fortune::record_wf;
use crate::fortune::four_lines;
use crate::fortune::text_view;
use crate::fortune::tier_label;
use crate::fortune::tier_of;
use crate::fortune::ExtractionError;
use crate::fortune::FragmentView;
use crate::fortune::LabelStyle;
use crate::fortune::Tier;
use crate::input::first_index;
use crate::input::form_month;
use crate::input::form_month_or_fault;
use crate::input::form_month_text;
use crate::input::integer_of;
use crate::input::key_of;
use crate::input::lemma_first_index_bounds;
use crate::input::InputFault;
use crate::input::month_of;
use crate::input::text_piece;

verus! {

/// Whether a fragment and the digit runs of a date hold all that a fortune
/// needs besides the rank: a last paragraph, a lucky colour and two runs.
pub open spec fn complete(f: FragmentView, runs: Seq<Seq<char>>) -> bool {
    last_text(f.paragraphs).is_some() && f.lucky_color.is_some() && runs.len() >= 2
}

/// The three markers are three different texts.
pub proof fn lemma_markers_differ()
    ensures
        "type1"@ != "type2"@,
        "type1"@ != "type3"@,
        "type2"@ != "type3"@,
{
    reveal_strlit("type1");
    reveal_strlit("type2");
    reveal_strlit("type3");
    assert("type1"@[4] == '1');
    assert("type2"@[4] == '2');
    assert("type3"@[4] == '3');
}

/// For every month, a complete fragment marked `type1` is rendered with the
/// top tier's label alone as its rank: nothing follows the label.
pub proof fn lemma_top_marker_gives_top_label(
    style: LabelStyle,
    month: int,
    f: FragmentView,
    runs: Seq<Seq<char>>,
)
    requires
        1 <= month <= 12,
        f.marker == Some("type1"@),
        complete(f, runs),
    ensures
        record_of(month, Some(f), runs) is Ok,
        record_of(month, Some(f), runs).unwrap().tier == Tier::Top,
        record_of(month, Some(f), runs).unwrap().rank_detail.is_none(),
        rank_text(style, Tier::Top, None) == tier_label(style, Tier::Top),
        fortune_text(style, month, Some(f), runs) == Ok::<Seq<char>, ExtractionError>(
            four_lines(
                month,
                tier_label(style, Tier::Top),
                last_text(f.paragraphs).unwrap(),
                f.lucky_color.unwrap(),
                runs[0],
                runs[1],
            ),
        ),
{
}

/// A complete fragment marked `type2` or `type3` that has a rank label is
/// rendered with the tier's label, one space and the rank label as it
/// stands on the page.
pub proof fn lemma_ranked_marker_gives_label_and_rank(
    style: LabelStyle,
    month: int,
    f: FragmentView,
    runs: Seq<Seq<char>>,
    rank: Seq<char>,
)
    requires
        1 <= month <= 12,
        f.marker == Some("type2"@) || f.marker == Some("type3"@),
        f.rank_label == Some(rank),
        complete(f, runs),
    ensures
        record_of(month, Some(f), runs) is Ok,
        f.marker == Some("type2"@) ==> record_of(month, Some(f), runs).unwrap().tier == Tier::Good,
        f.marker == Some("type3"@) ==> record_of(month, Some(f), runs).unwrap().tier == Tier::Fair,
        record_of(month, Some(f), runs).unwrap().rank_detail == Some(rank),
        rank_text(
            style,
            record_of(month, Some(f), runs).unwrap().tier,
            record_of(month, Some(f), runs).unwrap().rank_detail,
        ) == tier_label(style, tier_of(f.marker)) + " "@ + rank,
        fortune_text(style, month, Some(f), runs) == Ok::<Seq<char>, ExtractionError>(
            four_lines(
                month,
                tier_label(style, tier_of(f.marker)) + " "@ + rank,
                last_text(f.paragraphs).unwrap(),
                f.lucky_color.unwrap(),
                runs[0],
                runs[1],
            ),
        ),
{
    lemma_markers_differ();
}

/// A complete fragment without a marker, or with a marker that is none of
/// the three, is rendered with the bottom tier's label alone.
pub proof fn lemma_unknown_marker_gives_bottom_label(
    style: LabelStyle,
    month: int,
    f: FragmentView,
    runs: Seq<Seq<char>>,
)
    requires
        1 <= month <= 12,
        f.marker != Some("type1"@),
        f.marker != Some("type2"@),
        f.marker != Some("type3"@),
        complete(f, runs),
    ensures
        record_of(month, Some(f), runs) is Ok,
        record_of(month, Some(f), runs).unwrap().tier == Tier::Poor,
        rank_text(
            style,
            record_of(month, Some(f), runs).unwrap().tier,
            record_of(month, Some(f), runs).unwrap().rank_detail,
        ) == tier_label(style, Tier::Poor),
        fortune_text(style, month, Some(f), runs) == Ok::<Seq<char>, ExtractionError>(
            four_lines(
                month,
                tier_label(style, Tier::Poor),
                last_text(f.paragraphs).unwrap(),
                f.lucky_color.unwrap(),
                runs[0],
                runs[1],
            ),
        ),
{
}

/// Where the page holds no fragment for the month, the outcome is
/// `NotFound`, whatever else the page holds: no text is produced.
pub proof fn lemma_missing_fragment_is_not_found(
    style: LabelStyle,
    month: int,
    runs: Seq<Seq<char>>,
)
    requires
        1 <= month <= 12,
    ensures
        fortune_text(style, month, None, runs) == Err::<Seq<char>, ExtractionError>(
            ExtractionError::NotFound,
        ),
{
}

/// A page on which the month's block cannot be found gives `NotFound` under
/// either addressing; under addressing by id that is every page without an
/// element of the month's id.
pub proof fn lemma_unlocated_month_is_not_found(
    style: LabelStyle,
    addressing: Addressing,
    page: Seq<char>,
    month: int,
)
    requires
        1 <= month <= 12,
    ensures
        located(addressing, page, month) == Err::<FragmentView, ExtractionError>(
            ExtractionError::NotFound,
        ) ==> fortune_on_page(style, addressing, page, month) == Err::<
            Seq<char>,
            ExtractionError,
        >(ExtractionError::NotFound),
        fragment_on_page(page, month).is_none() ==> fortune_on_page(
            style,
            Addressing::ById,
            page,
            month,
        ) == Err::<Seq<char>, ExtractionError>(ExtractionError::NotFound),
{
}

/// A fragment marked `type2` or `type3` that has no rank label gives
/// `MalformedPage`, whatever else it holds.
pub proof fn lemma_missing_rank_label_is_malformed(
    style: LabelStyle,
    month: int,
    f: FragmentView,
    runs: Seq<Seq<char>>,
)
    requires
        1 <= month <= 12,
        f.marker == Some("type2"@) || f.marker == Some("type3"@),
        f.rank_label.is_none(),
    ensures
        fortune_text(style, month, Some(f), runs) == Err::<Seq<char>, ExtractionError>(
            ExtractionError::MalformedPage,
        ),
{
    lemma_markers_differ();
}

/// Every record that is made for one of the twelve months is well formed.
pub proof fn lemma_records_are_well_formed(
    month: int,
    fragment: Option<FragmentView>,
    runs: Seq<Seq<char>>,
)
    requires
        1 <= month <= 12,
        record_of(month, fragment, runs) is Ok,
    ensures
        record_wf(record_of(month, fragment, runs).unwrap()),
        fragment is Some,
        carries_rank(tier_of(fragment.unwrap().marker)) ==> fragment.unwrap().rank_label.is_some(),
{
}

/// The places of a list of twelve carry the twelve ranks, each once, and the
/// rank decides the tier: rank 1 is the top, ranks 2 to 6 are good, ranks 7
/// to 11 are fair, and rank 12 is the bottom.
pub proof fn lemma_places_carry_each_rank_once(place: int, other: int)
    requires
        0 <= place < 12,
        0 <= other < 12,
    ensures
        rank_at(place) is Some,
        1 <= rank_at(place).unwrap() <= 12,
        place != other ==> rank_at(place) != rank_at(other),
        tier_of(marker_of_rank(rank_at(place).unwrap())) == (if place == 11 {
            Tier::Top
        } else if place <= 4 {
            Tier::Good
        } else if place <= 9 {
            Tier::Fair
        } else {
            Tier::Poor
        }),
{
    lemma_markers_differ();
}

/// Two extractions from the same page for the same month give the same
/// outcome: the same text, or the same error.
pub proof fn lemma_same_page_same_fortune(
    style: LabelStyle,
    addressing: Addressing,
    page: Seq<char>,
    month: int,
    first: Result<String, ExtractionError>,
    second: Result<String, ExtractionError>,
)
    requires
        text_view(first) == fortune_on_page(style, addressing, page, month),
        text_view(second) == fortune_on_page(style, addressing, page, month),
    ensures
        text_view(first) == text_view(second),
        first is Ok ==> second is Ok && first.unwrap()@ == second.unwrap()@,
        first is Err ==> first == second,
{
}

/// The month field of a form body is found by its name: the piece that is
/// read is one whose name is exactly `text`, whatever other pieces hold.
pub proof fn lemma_month_field_is_found_by_name(body: Seq<char>, from: int)
    requires
        0 <= from <= body.len(),
    ensures
        text_piece(body, from) is Some ==> key_of(text_piece(body, from).unwrap()) == "text"@,
    decreases body.len() - from,
{
    let end = first_index(body, '&', from);
    lemma_first_index_bounds(body, '&', from);
    if key_of(body.subrange(from, end)) != "text"@ && end < body.len() {
        lemma_month_field_is_found_by_name(body, end + 1);
    }
}

/// Under addressing by rows, as under addressing by id, the description is
/// the last paragraph of the month's block, not the first.
pub proof fn lemma_row_description_is_last_paragraph(
    month: int,
    place: int,
    paragraphs: Seq<Option<Seq<char>>>,
    lucky_color: Option<Seq<char>>,
    runs: Seq<Seq<char>>,
)
    requires
        fragment_at(place, paragraphs, lucky_color) is Ok,
        record_of(month, Some(fragment_at(place, paragraphs, lucky_color).unwrap()), runs) is Ok,
    ensures
        paragraphs.len() > 0,
        paragraphs[paragraphs.len() - 1] == Some(
            record_of(
                month,
                Some(fragment_at(place, paragraphs, lucky_color).unwrap()),
                runs,
            ).unwrap().description,
        ),
{
}

/// A list of label rows gives a place only where every row says which month
/// it is for; one row that does not makes the page malformed.
pub proof fn lemma_unreadable_row_is_malformed(
    rows: Seq<Seq<Seq<Seq<char>>>>,
    month: int,
    at: int,
)
    requires
        0 <= at < rows.len(),
        !row_readable(rows[at]),
    ensures
        place_in(rows, month) == Err::<int, ExtractionError>(ExtractionError::MalformedPage),
{
}

/// The faults of a form body are told apart by what is wrong: only an empty
/// body is `EmptyBody`, and a month is given only where the body's month
/// field writes an integer from 1 to 12.
pub proof fn lemma_form_faults_are_told_apart(body: Seq<char>)
    ensures
        body.len() == 0 <==> form_month_or_fault(body) == Err::<int, InputFault>(
            InputFault::EmptyBody,
        ),
        form_month_or_fault(body) is Ok ==> form_month_text(body) is Some && integer_of(
            form_month_text(body).unwrap(),
        ) == Some(form_month_or_fault(body).unwrap()) && 1 <= form_month_or_fault(body).unwrap()
            <= 12,
        form_month(body) is Ok <==> form_month_or_fault(body) is Ok,
{
}

/// A month outside 1 to 12 is refused with `InvalidInput` whatever the page
/// holds, and an accepted month text always names one of the twelve.
pub proof fn lemma_only_twelve_months(
    style: LabelStyle,
    addressing: Addressing,
    page: Seq<char>,
    month: int,
    text: Seq<char>,
)
    ensures
        !(1 <= month <= 12) ==> fortune_on_page(style, addressing, page, month) == Err::<
            Seq<char>,
            ExtractionError,
        >(ExtractionError::InvalidInput),
        month_of(text) is Ok ==> 1 <= month_of(text).unwrap() <= 12 && integer_of(text) == Some(
            month_of(text).unwrap(),
        ),
        text.len() == 0 <==> month_of(text) == Err::<int, ExtractionError>(
            ExtractionError::EmptyInput,
        ),
        text.len() > 0 && month_of(text) is Err ==> month_of(text) == Err::<int, ExtractionError>(
            ExtractionError::InvalidInput,
        ),
{
}

} // verus!
