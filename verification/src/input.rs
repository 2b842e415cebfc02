//! What a caller sends: the month as text, alone or inside a form body.
use vstd::prelude::*;
use crate::fortune::ExtractionError;
use crate::text::char_to_digit;
use crate::text::chars_of;
use crate::text::digit_value;
use crate::text::same_chars;

verus! {

/// Whether every character is one of `'0'..='9'`.
pub open spec fn all_digits(s: Seq<char>) -> bool {
    forall|i: int| 0 <= i < s.len() ==> (#[trigger] digit_value(s[i])).is_some()
}

/// The number that a sequence of decimal digits writes; 0 for none.
pub open spec fn numeral_value(s: Seq<char>) -> int
    decreases s.len(),
{
    if s.len() == 0 {
        0
    } else {
        numeral_value(s.drop_last()) * 10 + match digit_value(s.last()) {
            Some(d) => d,
            None => 0,
        }
    }
}

/// The integer that a text writes in decimal: an optional sign, `+` or `-`,
/// and then one digit or more. Leading zeros count for nothing.
pub open spec fn integer_of(s: Seq<char>) -> Option<int> {
    if s.len() > 0 && (s[0] == '+' || s[0] == '-') {
        let digits = s.subrange(1, s.len() as int);
        if digits.len() > 0 && all_digits(digits) {
            Some(
                if s[0] == '-' {
                    -numeral_value(digits)
                } else {
                    numeral_value(digits)
                },
            )
        } else {
            None
        }
    } else if s.len() > 0 && all_digits(s) {
        Some(numeral_value(s))
    } else {
        None
    }
}

/// What is wrong with a request, told apart as finely as a caller reports
/// it.
#[derive(Clone, Copy, Debug, PartialEq, Eq, Structural)]
pub enum InputFault {
    /// The request has no body.
    EmptyBody,
    /// The month field is missing or empty.
    EmptyMonth,
    /// The month is no decimal integer.
    NotANumber,
    /// The month is an integer outside 1 to 12.
    OutOfRange,
}

/// The error kind that a fault falls under: what is missing is `EmptyInput`,
/// what is there and wrong is `InvalidInput`.
pub open spec fn kind_of(fault: InputFault) -> ExtractionError {
    match fault {
        InputFault::EmptyBody => ExtractionError::EmptyInput,
        InputFault::EmptyMonth => ExtractionError::EmptyInput,
        InputFault::NotANumber => ExtractionError::InvalidInput,
        InputFault::OutOfRange => ExtractionError::InvalidInput,
    }
}

/// The short text that a fault is reported with.
pub open spec fn message_of(fault: InputFault) -> Seq<char> {
    match fault {
        InputFault::EmptyBody => "Empty body"@,
        InputFault::EmptyMonth => "Empty month"@,
        InputFault::NotANumber => "Invalid month: not a number"@,
        InputFault::OutOfRange => "Invalid month"@,
    }
}

/// The month that a text names, or what is wrong with the text: an empty
/// text is `EmptyMonth`, a text that writes no integer is `NotANumber`, one
/// that writes an integer outside 1 to 12 is `OutOfRange`.
pub open spec fn month_or_fault(s: Seq<char>) -> Result<int, InputFault> {
    if s.len() == 0 {
        Err(InputFault::EmptyMonth)
    } else {
        match integer_of(s) {
            Some(v) => if 1 <= v <= 12 {
                Ok(v)
            } else {
                Err(InputFault::OutOfRange)
            },
            None => Err(InputFault::NotANumber),
        }
    }
}

/// A result with its fault replaced by the fault's error kind.
pub open spec fn by_kind(r: Result<int, InputFault>) -> Result<int, ExtractionError> {
    match r {
        Ok(v) => Ok(v),
        Err(fault) => Err(kind_of(fault)),
    }
}

/// The month that a text names: an empty text is `EmptyInput`, a text that
/// writes an integer from 1 to 12 is that month, and any other text is
/// `InvalidInput`.
pub open spec fn month_of(s: Seq<char>) -> Result<int, ExtractionError> {
    by_kind(month_or_fault(s))
}

/// A result with its month taken as a mathematical integer.
pub open spec fn diagnosis_view(r: Result<i32, InputFault>) -> Result<int, InputFault> {
    match r {
        Ok(m) => Ok(m as int),
        Err(fault) => Err(fault),
    }
}

/// A result with its month taken as a mathematical integer.
pub open spec fn month_view(r: Result<i32, ExtractionError>) -> Result<int, ExtractionError> {
    match r {
        Ok(m) => Ok(m as int),
        Err(e) => Err(e),
    }
}

/// A numeral is never negative.
pub proof fn lemma_numeral_value_nonnegative(s: Seq<char>)
    ensures
        numeral_value(s) >= 0,
    decreases s.len(),
{
    if s.len() > 0 {
        lemma_numeral_value_nonnegative(s.drop_last());
    }
}

/// Whether the characters from `start` on are digits, one at least, and the
/// number that they write, cut off at 13.
fn scan_digits(s: &Vec<char>, start: usize) -> (r: Option<u32>)
    requires
        start <= s@.len(),
    ensures
        r.is_some() == (start < s@.len() && all_digits(s@.subrange(start as int, s@.len() as int))),
        match r {
            Some(v) => {
                let exact = numeral_value(s@.subrange(start as int, s@.len() as int));
                v <= 13 && (exact <= 12 ==> v == exact) && (exact >= 13 ==> v == 13)
            },
            None => true,
        },
{
    if start >= s.len() {
        return None;
    }
    let mut acc: u32 = 0;
    let mut i: usize = start;
    while i < s.len()
        invariant
            start <= i <= s@.len(),
            all_digits(s@.subrange(start as int, i as int)),
            acc <= 13,
            numeral_value(s@.subrange(start as int, i as int)) <= 12 ==> acc == numeral_value(
                s@.subrange(start as int, i as int),
            ),
            numeral_value(s@.subrange(start as int, i as int)) >= 13 ==> acc == 13,
        decreases s@.len() - i,
    {
        let ghost before = s@.subrange(start as int, i as int);
        let ghost after = s@.subrange(start as int, i + 1);
        proof {
            assert(after.drop_last() =~= before);
            assert(after.last() == s@[i as int]);
            lemma_numeral_value_nonnegative(before);
        }
        match char_to_digit(s[i]) {
            None => {
                proof {
                    let whole = s@.subrange(start as int, s@.len() as int);
                    assert(whole[i - start] == s@[i as int]);
                }
                return None;
            },
            Some(d) => {
                let next: u32 = acc * 10 + d as u32;
                acc = if next > 13 {
                    13
                } else {
                    next
                };
                proof {
                    assert forall|k: int| 0 <= k < after.len() implies (#[trigger] digit_value(
                        after[k],
                    )).is_some() by {
                        if k < before.len() {
                            assert(after[k] == before[k]);
                        }
                    }
                }
            },
        }
        i += 1;
    }
    assert(s@.subrange(start as int, i as int) =~= s@.subrange(start as int, s@.len() as int));
    Some(acc)
}

impl InputFault {
    /// The error kind that the fault falls under.
    pub fn kind(self) -> (r: ExtractionError)
        ensures
            r == kind_of(self),
    {
        match self {
            InputFault::EmptyBody => ExtractionError::EmptyInput,
            InputFault::EmptyMonth => ExtractionError::EmptyInput,
            InputFault::NotANumber => ExtractionError::InvalidInput,
            InputFault::OutOfRange => ExtractionError::InvalidInput,
        }
    }

    /// The short text that the fault is reported with.
    pub fn message(self) -> (r: &'static str)
        ensures
            r@ == message_of(self),
    {
        match self {
            InputFault::EmptyBody => "Empty body",
            InputFault::EmptyMonth => "Empty month",
            InputFault::NotANumber => "Invalid month: not a number",
            InputFault::OutOfRange => "Invalid month",
        }
    }
}

/// Reads a month from a text, or says what is wrong with the text.
pub fn diagnose_month(text: &str) -> (r: Result<i32, InputFault>)
    ensures
        diagnosis_view(r) == month_or_fault(text@),
{
    let s = chars_of(text);
    if s.len() == 0 {
        return Err(InputFault::EmptyMonth);
    }
    let signed = s[0] == '+' || s[0] == '-';
    let start: usize = if signed {
        1
    } else {
        0
    };
    proof {
        assert(s@.subrange(0, s@.len() as int) =~= s@);
        lemma_numeral_value_nonnegative(s@.subrange(start as int, s@.len() as int));
    }
    match scan_digits(&s, start) {
        None => Err(InputFault::NotANumber),
        Some(v) => {
            if s[0] == '-' || v < 1 || v > 12 {
                Err(InputFault::OutOfRange)
            } else {
                Ok(v as i32)
            }
        },
    }
}

/// Reads a month from a text.
pub fn parse_month(text: &str) -> (r: Result<i32, ExtractionError>)
    ensures
        month_view(r) == month_of(text@),
{
    match diagnose_month(text) {
        Ok(m) => Ok(m),
        Err(fault) => Err(fault.kind()),
    }
}

/// Checks a month that came as a number.
pub fn check_month(month: i64) -> (r: Result<i32, ExtractionError>)
    ensures
        1 <= month <= 12 ==> r == Ok::<i32, ExtractionError>(month as i32),
        !(1 <= month <= 12) ==> r == Err::<i32, ExtractionError>(ExtractionError::InvalidInput),
{
    if 1 <= month && month <= 12 {
        Ok(month as i32)
    } else {
        Err(ExtractionError::InvalidInput)
    }
}

/// The first place at or after `from` where `c` stands in `s`, or the
/// length of `s` where it stands nowhere there.
pub open spec fn first_index(s: Seq<char>, c: char, from: int) -> int
    decreases s.len() - from,
{
    if from < 0 || from >= s.len() {
        s.len() as int
    } else if s[from] == c {
        from
    } else {
        first_index(s, c, from + 1)
    }
}

/// The name of a piece of a form body: what stands before its first `=`,
/// or the whole piece where it has none.
pub open spec fn key_of(piece: Seq<char>) -> Seq<char> {
    piece.subrange(0, first_index(piece, '=', 0))
}

/// The first of the pieces of `body` between `&` signs, from `from` on,
/// whose name is `text`.
pub open spec fn text_piece(body: Seq<char>, from: int) -> Option<Seq<char>>
    decreases body.len() - from,
    via text_piece_decreases
{
    if from < 0 || from > body.len() {
        None
    } else {
        let end = first_index(body, '&', from);
        let piece = body.subrange(from, end);
        if key_of(piece) == "text"@ {
            Some(piece)
        } else if end >= body.len() {
            None
        } else {
            text_piece(body, end + 1)
        }
    }
}

#[via_fn]
proof fn text_piece_decreases(body: Seq<char>, from: int) {
    if 0 <= from <= body.len() {
        lemma_first_index_bounds(body, '&', from);
    }
}

/// The value of a piece of a form body: what stands after its first `=`,
/// up to the end of the piece; nothing where the piece has no `=`.
pub open spec fn field_value(piece: Seq<char>) -> Seq<char> {
    let a = first_index(piece, '=', 0);
    if a >= piece.len() {
        Seq::empty()
    } else {
        piece.subrange(a + 1, piece.len() as int)
    }
}

/// The month field of a form body, as text: the value of the first piece
/// whose name is `text`. A body without such a piece has none.
pub open spec fn form_month_text(body: Seq<char>) -> Option<Seq<char>> {
    match text_piece(body, 0) {
        None => None,
        Some(piece) => Some(field_value(piece)),
    }
}

/// The month that a form body asks for, or what is wrong with the body: an
/// empty body is `EmptyBody`, a body without a month field is `EmptyMonth`,
/// and the field's value is read as a month text is.
pub open spec fn form_month_or_fault(body: Seq<char>) -> Result<int, InputFault> {
    if body.len() == 0 {
        Err(InputFault::EmptyBody)
    } else {
        match form_month_text(body) {
            None => Err(InputFault::EmptyMonth),
            Some(text) => month_or_fault(text),
        }
    }
}

/// The month that a form body asks for.
pub open spec fn form_month(body: Seq<char>) -> Result<int, ExtractionError> {
    by_kind(form_month_or_fault(body))
}

/// `first_index` stays inside the text.
pub proof fn lemma_first_index_bounds(s: Seq<char>, c: char, from: int)
    requires
        0 <= from <= s.len(),
    ensures
        from <= first_index(s, c, from) <= s.len(),
    decreases s.len() - from,
{
    if from < s.len() && s[from] != c {
        lemma_first_index_bounds(s, c, from + 1);
    }
}

/// The first place at or after `from` where `c` stands, or the length.
pub fn index_from(s: &Vec<char>, c: char, from: usize) -> (r: usize)
    requires
        from <= s@.len(),
    ensures
        r == first_index(s@, c, from as int),
        from <= r <= s@.len(),
{
    let mut i: usize = from;
    while i < s.len()
        invariant
            from <= i <= s@.len(),
            first_index(s@, c, from as int) == first_index(s@, c, i as int),
        decreases s@.len() - i,
    {
        if s[i] == c {
            return i;
        }
        i += 1;
    }
    i
}

/// The characters of `s` from `lo` up to `hi`.
pub fn slice_chars(s: &Vec<char>, lo: usize, hi: usize) -> (r: Vec<char>)
    requires
        lo <= hi <= s@.len(),
    ensures
        r@ == s@.subrange(lo as int, hi as int),
{
    let mut out: Vec<char> = Vec::new();
    let mut i: usize = lo;
    while i < hi
        invariant
            lo <= i <= hi <= s@.len(),
            out@ == s@.subrange(lo as int, i as int),
        decreases hi - i,
    {
        out.push(s[i]);
        assert(out@ =~= s@.subrange(lo as int, i + 1));
        i += 1;
    }
    out
}

/// The string that holds the given characters.
pub fn string_of(s: &Vec<char>) -> (r: String)
    ensures
        r@ == s@,
{
    let mut out = String::new();
    let mut i: usize = 0;
    while i < s.len()
        invariant
            i <= s@.len(),
            out@ == s@.subrange(0, i as int),
        decreases s@.len() - i,
    {
        out.push(s[i]);
        assert(out@ =~= s@.subrange(0, i + 1));
        i += 1;
    }
    assert(out@ =~= s@);
    out
}

/// Takes the month field out of a form body, as text.
pub fn month_field(body: &str) -> (r: Option<String>)
    ensures
        r.deep_view() == form_month_text(body@),
{
    let b = chars_of(body);
    let key = chars_of("text");
    let mut from: usize = 0;
    loop
        invariant
            from <= b@.len(),
            b@ == body@,
            key@ == "text"@,
            text_piece(b@, 0) == text_piece(b@, from as int),
        decreases b@.len() - from,
    {
        let end = index_from(&b, '&', from);
        let piece = slice_chars(&b, from, end);
        let a = index_from(&piece, '=', 0);
        let name = slice_chars(&piece, 0, a);
        if same_chars(&name, &key) {
            if a >= piece.len() {
                return Some(String::new());
            }
            let value = slice_chars(&piece, a + 1, piece.len());
            return Some(string_of(&value));
        }
        if end >= b.len() {
            return None;
        }
        from = end + 1;
    }
}

/// Reads the month that a form body asks for, or says what is wrong with
/// the body.
pub fn diagnose_form(body: &str) -> (r: Result<i32, InputFault>)
    ensures
        diagnosis_view(r) == form_month_or_fault(body@),
{
    if body.unicode_len() == 0 {
        return Err(InputFault::EmptyBody);
    }
    match month_field(body) {
        None => Err(InputFault::EmptyMonth),
        Some(text) => diagnose_month(text.as_str()),
    }
}

/// Reads the month that a form body asks for.
pub fn month_from_form(body: &str) -> (r: Result<i32, ExtractionError>)
    ensures
        month_view(r) == form_month(body@),
{
    match diagnose_form(body) {
        Ok(m) => Ok(m),
        Err(fault) => Err(fault.kind()),
    }
}

} // verus!
