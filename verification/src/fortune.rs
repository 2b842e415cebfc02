//! The fortune of one month: what a page holds for it, the record that is
//! made of that, and the text that is shown.
use vstd::prelude::*;
use crate::text::decimal;
use crate::text::push_decimal;
use crate::text::same_text;

verus! {

/// Why no fortune could be given.
#[derive(Clone, Copy, Debug, PartialEq, Eq, Structural)]
pub enum ExtractionError {
    /// The page could not be fetched.
    Fetch,
    /// The page holds no block for the month.
    NotFound,
    /// The block is there, but something that it should hold is not.
    MalformedPage,
    /// The month is no number from 1 to 12.
    InvalidInput,
    /// A field that the request must carry is missing or empty.
    EmptyInput,
}

/// The four tiers of a ranking.
#[derive(Clone, Copy, Debug, PartialEq, Eq, Structural)]
pub enum Tier {
    Top,
    Good,
    Fair,
    Poor,
}

/// Which set of labels a rendered fortune uses.
#[derive(Clone, Copy, Debug, PartialEq, Eq, Structural)]
pub enum LabelStyle {
    /// Labels decorated with emoji.
    Emoji,
    /// The same labels as plain text.
    Plain,
}

/// What the page holds for one month, as plain text.
#[derive(Clone, Debug)]
pub struct Fragment {
    /// The block's `class` attribute, if it has one.
    pub marker: Option<String>,
    /// The text of the block's rank label, if there is one with text.
    pub rank_label: Option<String>,
    /// The text of each paragraph of the block, in page order; `None` for a
    /// paragraph without text.
    pub paragraphs: Vec<Option<String>>,
    /// The text of the block's lucky colour element, if there is one with text.
    pub lucky_color: Option<String>,
}

/// The mathematical content of a `Fragment`.
pub struct FragmentView {
    pub marker: Option<Seq<char>>,
    pub rank_label: Option<Seq<char>>,
    pub paragraphs: Seq<Option<Seq<char>>>,
    pub lucky_color: Option<Seq<char>>,
}

impl View for Fragment {
    type V = FragmentView;

    open spec fn view(&self) -> FragmentView {
        FragmentView {
            marker: self.marker.deep_view(),
            rank_label: self.rank_label.deep_view(),
            paragraphs: self.paragraphs.deep_view(),
            lucky_color: self.lucky_color.deep_view(),
        }
    }
}

/// The fortune of one month, ready to be rendered.
#[derive(Clone, Debug)]
pub struct FortuneRecord {
    pub month: u8,
    pub tier: Tier,
    /// The rank as the page writes it; present for `Good` and `Fair` only.
    pub rank_detail: Option<String>,
    pub description: String,
    pub lucky_color: String,
    /// The month of the page's last update, in the page's own digits.
    pub modified_month: String,
    /// The day of the page's last update, in the page's own digits.
    pub modified_day: String,
}

/// The mathematical content of a `FortuneRecord`.
pub struct RecordView {
    pub month: int,
    pub tier: Tier,
    pub rank_detail: Option<Seq<char>>,
    pub description: Seq<char>,
    pub lucky_color: Seq<char>,
    pub modified_month: Seq<char>,
    pub modified_day: Seq<char>,
}

impl View for FortuneRecord {
    type V = RecordView;

    open spec fn view(&self) -> RecordView {
        RecordView {
            month: self.month as int,
            tier: self.tier,
            rank_detail: self.rank_detail.deep_view(),
            description: self.description@,
            lucky_color: self.lucky_color@,
            modified_month: self.modified_month@,
            modified_day: self.modified_day@,
        }
    }
}

/// Whether a tier is rendered with the rank that the page writes.
pub open spec fn carries_rank(tier: Tier) -> bool {
    tier == Tier::Good || tier == Tier::Fair
}

/// A record is well formed when its month is one of the twelve and it has a
/// rank detail exactly where its tier carries one.
pub open spec fn record_wf(record: RecordView) -> bool {
    &&& 1 <= record.month <= 12
    &&& record.rank_detail.is_some() == carries_rank(record.tier)
}

/// The tier that a marker stands for: `type1`, `type2` and `type3` are the
/// first three tiers, anything else and no marker at all the last.
pub open spec fn tier_of(marker: Option<Seq<char>>) -> Tier {
    if marker == Some("type1"@) {
        Tier::Top
    } else if marker == Some("type2"@) {
        Tier::Good
    } else if marker == Some("type3"@) {
        Tier::Fair
    } else {
        Tier::Poor
    }
}

/// The label of a tier in a style.
pub open spec fn tier_label(style: LabelStyle, tier: Tier) -> Seq<char> {
    match (style, tier) {
        (LabelStyle::Emoji, Tier::Top) => "✨✨超スッキリす！！✨✨"@,
        (LabelStyle::Emoji, Tier::Good) => "スッキリす🍀"@,
        (LabelStyle::Emoji, Tier::Fair) => "まあまあスッキリす🍥"@,
        (LabelStyle::Emoji, Tier::Poor) => "ガッカリす...💧"@,
        (LabelStyle::Plain, Tier::Top) => "超スッキリす！"@,
        (LabelStyle::Plain, Tier::Good) => "スッキリす"@,
        (LabelStyle::Plain, Tier::Fair) => "まあまあスッキリす"@,
        (LabelStyle::Plain, Tier::Poor) => "ガッカリす..."@,
    }
}

/// The rank as it is rendered: the tier's label, followed by one space and
/// the rank detail where there is one.
pub open spec fn rank_text(style: LabelStyle, tier: Tier, detail: Option<Seq<char>>) -> Seq<char> {
    match detail {
        Some(d) => tier_label(style, tier) + " "@ + d,
        None => tier_label(style, tier),
    }
}

/// The last entry of a sequence of optional texts, if it is a text.
pub open spec fn last_text(texts: Seq<Option<Seq<char>>>) -> Option<Seq<char>> {
    if texts.len() > 0 {
        texts[texts.len() - 1]
    } else {
        None
    }
}

/// The first entry of a sequence of optional texts, if it is a text.
pub open spec fn first_text(texts: Seq<Option<Seq<char>>>) -> Option<Seq<char>> {
    if texts.len() > 0 {
        texts[0]
    } else {
        None
    }
}

/// The record that a month's fragment and the digit runs of the page's date
/// give, or the reason why there is none.
///
/// No fragment: `NotFound`. A fragment whose tier carries a rank but which
/// has no rank label, one without a last paragraph or without a lucky colour,
/// and fewer than two digit runs: `MalformedPage`. The description is the
/// last paragraph; the date is made of the first two digit runs.
pub open spec fn record_of(month: int, fragment: Option<FragmentView>, runs: Seq<Seq<char>>) -> Result<
    RecordView,
    ExtractionError,
> {
    match fragment {
        None => Err(ExtractionError::NotFound),
        Some(f) => {
            let tier = tier_of(f.marker);
            if carries_rank(tier) && f.rank_label.is_none() {
                Err(ExtractionError::MalformedPage)
            } else if last_text(f.paragraphs).is_none() || f.lucky_color.is_none() || runs.len()
                < 2 {
                Err(ExtractionError::MalformedPage)
            } else {
                Ok(
                    RecordView {
                        month,
                        tier,
                        rank_detail: if carries_rank(tier) {
                            f.rank_label
                        } else {
                            None
                        },
                        description: last_text(f.paragraphs).unwrap(),
                        lucky_color: f.lucky_color.unwrap(),
                        modified_month: runs[0],
                        modified_day: runs[1],
                    },
                )
            }
        },
    }
}

/// The four lines of a fortune: the month and its rank, the description,
/// the lucky colour, and the date of the last update as month, stroke, day.
pub open spec fn four_lines(
    month: int,
    rank: Seq<char>,
    description: Seq<char>,
    lucky_color: Seq<char>,
    modified_month: Seq<char>,
    modified_day: Seq<char>,
) -> Seq<char> {
    decimal(month as nat) + "月: "@ + rank + "\n"@ + description + "\nラッキーカラー: "@ + lucky_color
        + "\n更新日: "@ + modified_month + "/"@ + modified_day
}

/// The text that shows a record in a style.
pub open spec fn rendered(style: LabelStyle, record: RecordView) -> Seq<char> {
    four_lines(
        record.month,
        rank_text(style, record.tier, record.rank_detail),
        record.description,
        record.lucky_color,
        record.modified_month,
        record.modified_day,
    )
}

/// The text of a month's fortune, or the reason why there is none.
pub open spec fn fortune_text(
    style: LabelStyle,
    month: int,
    fragment: Option<FragmentView>,
    runs: Seq<Seq<char>>,
) -> Result<Seq<char>, ExtractionError> {
    if !(1 <= month <= 12) {
        Err(ExtractionError::InvalidInput)
    } else {
        match record_of(month, fragment, runs) {
            Ok(record) => Ok(rendered(style, record)),
            Err(e) => Err(e),
        }
    }
}

/// A result with its text taken as a sequence of characters.
pub open spec fn text_view(r: Result<String, ExtractionError>) -> Result<Seq<char>, ExtractionError> {
    match r {
        Ok(s) => Ok(s@),
        Err(e) => Err(e),
    }
}

/// A result with its record taken by its view.
pub open spec fn record_view(r: Result<FortuneRecord, ExtractionError>) -> Result<
    RecordView,
    ExtractionError,
> {
    match r {
        Ok(record) => Ok(record@),
        Err(e) => Err(e),
    }
}

/// An optional fragment taken by its view.
pub open spec fn fragment_view(fragment: Option<Fragment>) -> Option<FragmentView> {
    match fragment {
        Some(f) => Some(f@),
        None => None,
    }
}

/// A copy of an optional text.
pub fn copy_text(text: &Option<String>) -> (r: Option<String>)
    ensures
        r.deep_view() == text.deep_view(),
{
    match text {
        Some(s) => Some(s.clone()),
        None => None,
    }
}

/// The tier that a block's marker stands for.
pub fn classify(marker: &Option<String>) -> (tier: Tier)
    ensures
        tier == tier_of(marker.deep_view()),
{
    match marker {
        None => Tier::Poor,
        Some(m) => {
            if same_text(m.as_str(), "type1") {
                Tier::Top
            } else if same_text(m.as_str(), "type2") {
                Tier::Good
            } else if same_text(m.as_str(), "type3") {
                Tier::Fair
            } else {
                Tier::Poor
            }
        },
    }
}

/// The label of a tier in a style.
pub fn label(style: LabelStyle, tier: Tier) -> (r: &'static str)
    ensures
        r@ == tier_label(style, tier),
{
    match (style, tier) {
        (LabelStyle::Emoji, Tier::Top) => "✨✨超スッキリす！！✨✨",
        (LabelStyle::Emoji, Tier::Good) => "スッキリす🍀",
        (LabelStyle::Emoji, Tier::Fair) => "まあまあスッキリす🍥",
        (LabelStyle::Emoji, Tier::Poor) => "ガッカリす...💧",
        (LabelStyle::Plain, Tier::Top) => "超スッキリす！",
        (LabelStyle::Plain, Tier::Good) => "スッキリす",
        (LabelStyle::Plain, Tier::Fair) => "まあまあスッキリす",
        (LabelStyle::Plain, Tier::Poor) => "ガッカリす...",
    }
}

impl FortuneRecord {
    /// Makes the record of a month from what the page holds for it and from
    /// the digit runs of the page's date.
    pub fn from_fragment(month: u8, fragment: &Option<Fragment>, runs: &Vec<String>) -> (r: Result<
        FortuneRecord,
        ExtractionError,
    >)
        ensures
            record_view(r) == record_of(month as int, fragment_view(*fragment), runs.deep_view()),
            r is Ok && 1 <= month <= 12 ==> record_wf(r.unwrap()@),
    {
        let f = match fragment {
            None => { return Err(ExtractionError::NotFound); },
            Some(f) => f,
        };
        let tier = classify(&f.marker);
        let ranked = tier == Tier::Good || tier == Tier::Fair;
        if ranked && f.rank_label.is_none() {
            return Err(ExtractionError::MalformedPage);
        }
        let count = f.paragraphs.len();
        if count == 0 || f.lucky_color.is_none() || runs.len() < 2 {
            return Err(ExtractionError::MalformedPage);
        }
        let description = match &f.paragraphs[count - 1] {
            None => { return Err(ExtractionError::MalformedPage); },
            Some(d) => d.clone(),
        };
        let lucky_color = match &f.lucky_color {
            None => { return Err(ExtractionError::MalformedPage); },
            Some(c) => c.clone(),
        };
        let rank_detail = if ranked {
            copy_text(&f.rank_label)
        } else {
            None
        };
        Ok(
            FortuneRecord {
                month,
                tier,
                rank_detail,
                description,
                lucky_color,
                modified_month: runs[0].clone(),
                modified_day: runs[1].clone(),
            },
        )
    }

    /// The rank as it is rendered in a style.
    pub fn rank(&self, style: LabelStyle) -> (r: String)
        ensures
            r@ == rank_text(style, self@.tier, self@.rank_detail),
    {
        let mut out = String::new();
        out.push_str(label(style, self.tier));
        match &self.rank_detail {
            Some(d) => {
                out.push_str(" ");
                out.push_str(d.as_str());
            },
            None => {},
        }
        assert(out@ =~= rank_text(style, self@.tier, self@.rank_detail));
        out
    }

    /// The text that shows the record in a style.
    pub fn render(&self, style: LabelStyle) -> (r: String)
        ensures
            r@ == rendered(style, self@),
    {
        let rank = self.rank(style);
        let mut out = String::new();
        push_decimal(&mut out, self.month as u32);
        out.push_str("月: ");
        out.push_str(rank.as_str());
        out.push_str("\n");
        out.push_str(self.description.as_str());
        out.push_str("\nラッキーカラー: ");
        out.push_str(self.lucky_color.as_str());
        out.push_str("\n更新日: ");
        out.push_str(self.modified_month.as_str());
        out.push_str("/");
        out.push_str(self.modified_day.as_str());
        assert(out@ =~= rendered(style, self@));
        out
    }
}

} // verus!
