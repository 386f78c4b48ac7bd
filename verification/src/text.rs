//! Small operations on text that the rest of the crate builds on.

use vstd::prelude::*;
use vstd::string::StringExecFns;
use vstd::string::StringSliceAdditionalSpecFns;
use vstd::utf8::decode_utf8;
use vstd::utf8::encode_utf8;
use vstd::utf8::encode_utf8_decode_utf8;
use vstd::utf8::valid_utf8;

verus! {

/// How one piece of text stands to another in the order of their bytes.
#[derive(Debug, Clone, Copy, PartialEq, Eq)]
pub enum Rank {
    /// The first comes before the second.
    Before,
    /// The two are the same text.
    Same,
    /// The first comes after the second.
    After,
}

/// Whether `a` comes before `b` in the order of the dictionary: at the first
/// place where they differ `a` has the lesser byte, or `a` ends there and `b`
/// goes on.
pub open spec fn bytes_precede(a: Seq<u8>, b: Seq<u8>) -> bool
    decreases a.len(),
{
    if b.len() == 0 {
        false
    } else if a.len() == 0 {
        true
    } else if a[0] != b[0] {
        a[0] < b[0]
    } else {
        bytes_precede(a.drop_first(), b.drop_first())
    }
}

/// Whether the text `a` comes before the text `b`, by the bytes that spell
/// them in UTF-8.
pub open spec fn precedes(a: Seq<char>, b: Seq<char>) -> bool {
    bytes_precede(encode_utf8(a), encode_utf8(b))
}

/// Nothing comes before itself.
pub proof fn lemma_bytes_precede_irreflexive(a: Seq<u8>)
    ensures
        !bytes_precede(a, a),
    decreases a.len(),
{
    if a.len() > 0 {
        lemma_bytes_precede_irreflexive(a.drop_first());
    }
}

/// What comes before something that comes before a third comes before the
/// third.
pub proof fn lemma_bytes_precede_transitive(a: Seq<u8>, b: Seq<u8>, c: Seq<u8>)
    requires
        bytes_precede(a, b),
        bytes_precede(b, c),
    ensures
        bytes_precede(a, c),
    decreases a.len(),
{
    if a.len() > 0 && a[0] == b[0] && b[0] == c[0] {
        lemma_bytes_precede_transitive(a.drop_first(), b.drop_first(), c.drop_first());
    }
}

/// No text comes before itself, and a text that comes before another is
/// another text.
pub proof fn lemma_precedes_irreflexive(a: Seq<char>)
    ensures
        !precedes(a, a),
{
    lemma_bytes_precede_irreflexive(encode_utf8(a));
}

/// The order of texts is transitive.
pub proof fn lemma_precedes_transitive(a: Seq<char>, b: Seq<char>, c: Seq<char>)
    requires
        precedes(a, b),
        precedes(b, c),
    ensures
        precedes(a, c),
{
    lemma_bytes_precede_transitive(encode_utf8(a), encode_utf8(b), encode_utf8(c));
}

/// How the text `a` stands to the text `b` in the order of their bytes.
pub fn rank_text(a: &str, b: &str) -> (rank: Rank)
    ensures
        match rank {
            Rank::Before => precedes(a@, b@),
            Rank::Same => a@ == b@,
            Rank::After => precedes(b@, a@),
        },
{
    let x = a.as_bytes();
    let y = b.as_bytes();
    let mut i: usize = 0;
    proof {
        assert(x@.skip(0) =~= x@);
        assert(y@.skip(0) =~= y@);
    }
    while i < x.len() && i < y.len()
        invariant
            i <= x.len(),
            i <= y.len(),
            x@ == encode_utf8(a@),
            y@ == encode_utf8(b@),
            forall|j: int| 0 <= j < i ==> x@[j] == y@[j],
            bytes_precede(x@, y@) == bytes_precede(x@.skip(i as int), y@.skip(i as int)),
            bytes_precede(y@, x@) == bytes_precede(y@.skip(i as int), x@.skip(i as int)),
        decreases x.len() - i,
    {
        proof {
            assert(x@.skip(i as int).drop_first() =~= x@.skip(i + 1));
            assert(y@.skip(i as int).drop_first() =~= y@.skip(i + 1));
        }
        if x[i] < y[i] {
            return Rank::Before;
        }
        if x[i] > y[i] {
            return Rank::After;
        }
        i += 1;
    }
    if i < y.len() {
        Rank::Before
    } else if i < x.len() {
        Rank::After
    } else {
        proof {
            assert(x@ =~= y@);
            encode_utf8_decode_utf8(a@);
            encode_utf8_decode_utf8(b@);
        }
        Rank::Same
    }
}

/// The text `head` followed by the text `tail`.
pub fn joined(head: &str, tail: &str) -> (whole: String)
    ensures
        whole@ == head@ + tail@,
{
    let mut whole = String::from_str(head);
    whole.append(tail);
    whole
}

/// The digit that writes a number below ten.
pub open spec fn digit_text(digit: nat) -> Seq<char> {
    if digit == 0 {
        "0"@
    } else if digit == 1 {
        "1"@
    } else if digit == 2 {
        "2"@
    } else if digit == 3 {
        "3"@
    } else if digit == 4 {
        "4"@
    } else if digit == 5 {
        "5"@
    } else if digit == 6 {
        "6"@
    } else if digit == 7 {
        "7"@
    } else if digit == 8 {
        "8"@
    } else {
        "9"@
    }
}

/// A number written in decimal digits, without leading zeros.
pub open spec fn decimal_text(number: nat) -> Seq<char>
    decreases number,
{
    if number < 10 {
        digit_text(number)
    } else {
        decimal_text(number / 10) + digit_text(number % 10)
    }
}

/// The digit that writes `digit`.
fn digit_of(digit: u16) -> (text: &'static str)
    requires
        digit < 10,
    ensures
        text@ == digit_text(digit as nat),
{
    if digit == 0 {
        "0"
    } else if digit == 1 {
        "1"
    } else if digit == 2 {
        "2"
    } else if digit == 3 {
        "3"
    } else if digit == 4 {
        "4"
    } else if digit == 5 {
        "5"
    } else if digit == 6 {
        "6"
    } else if digit == 7 {
        "7"
    } else if digit == 8 {
        "8"
    } else {
        "9"
    }
}

/// `number` written in decimal digits.
pub fn decimal(number: u16) -> (text: String)
    ensures
        text@ == decimal_text(number as nat),
    decreases number,
{
    if number < 10 {
        digit_of(number).to_owned()
    } else {
        let front = decimal(number / 10);
        joined(front.as_str(), digit_of(number % 10))
    }
}

/// The characters of a piece of text, in their order.
pub fn chars_of(text: &str) -> (chars: Vec<char>)
    ensures
        chars@ == text@,
{
    let mut chars: Vec<char> = Vec::new();
    for c in it: text.chars()
        invariant
            it.seq() == text@,
            chars@ == it.seq().take(it.index() as int),
    {
        chars.push(c);
        assert(chars@ =~= it.seq().take(it.index() + 1));
    }
    assert(text@.take(text@.len() as int) =~= text@);
    chars
}

/// Whether `needle` stands in `haystack` at the position `at`.
pub open spec fn occurs_at(haystack: Seq<char>, needle: Seq<char>, at: int) -> bool {
    0 <= at && at + needle.len() <= haystack.len() && haystack.subrange(
        at,
        at + needle.len(),
    ) == needle
}

/// Whether `needle` stands somewhere in `haystack`.
pub open spec fn occurs_in(haystack: Seq<char>, needle: Seq<char>) -> bool {
    exists|at: int| occurs_at(haystack, needle, at)
}

/// Whether the characters of `needle` stand in `haystack` at the position
/// `at`.
fn matches_at(haystack: &Vec<char>, needle: &Vec<char>, at: usize) -> (matches: bool)
    requires
        at + needle.len() <= haystack.len(),
    ensures
        matches == occurs_at(haystack@, needle@, at as int),
{
    let mut i: usize = 0;
    while i < needle.len()
        invariant
            i <= needle.len(),
            at + needle.len() <= haystack.len(),
            forall|j: int| 0 <= j < i ==> haystack@[at + j] == needle@[j],
        decreases needle.len() - i,
    {
        if haystack[at + i] != needle[i] {
            assert(haystack@.subrange(at as int, at + needle.len())[i as int] != needle@[i as int]);
            return false;
        }
        i += 1;
    }
    assert(haystack@.subrange(at as int, at + needle.len()) =~= needle@);
    true
}

/// Whether the text `needle` stands somewhere in the text `haystack`.
pub fn contains_text(haystack: &str, needle: &str) -> (found: bool)
    ensures
        found == occurs_in(haystack@, needle@),
{
    let hay = chars_of(haystack);
    let pin = chars_of(needle);
    if pin.len() > hay.len() {
        return false;
    }
    let last = hay.len() - pin.len();
    let mut at: usize = 0;
    while at < last
        invariant
            at <= last,
            last == hay.len() - pin.len(),
            pin.len() <= hay.len(),
            hay@ == haystack@,
            pin@ == needle@,
            forall|j: int| 0 <= j < at ==> !occurs_at(hay@, pin@, j),
        decreases last - at,
    {
        if matches_at(&hay, &pin, at) {
            return true;
        }
        at += 1;
    }
    matches_at(&hay, &pin, last)
}

/// `text` with every occurrence of `from` replaced by `to`, the occurrences
/// taken from the left and none overlapping another. A `from` without
/// characters occurs nowhere.
pub open spec fn replaced(text: Seq<char>, from: Seq<char>, to: Seq<char>) -> Seq<char>
    decreases text.len(),
{
    if from.len() == 0 || text.len() < from.len() {
        text
    } else if text.subrange(0, from.len() as int) == from {
        to + replaced(text.skip(from.len() as int), from, to)
    } else {
        seq![text[0]] + replaced(text.skip(1), from, to)
    }
}

/// A text in which `from` stands nowhere is left as it is.
pub proof fn law_nothing_to_replace(text: Seq<char>, from: Seq<char>, to: Seq<char>)
    requires
        !occurs_in(text, from),
    ensures
        replaced(text, from, to) == text,
    decreases text.len(),
{
    if from.len() > 0 && text.len() >= from.len() {
        assert(!occurs_at(text, from, 0));
        let rest = text.skip(1);
        assert forall|at: int| !occurs_at(rest, from, at) by {
            if occurs_at(rest, from, at) {
                assert(rest.subrange(at, at + from.len()) =~= text.subrange(
                    at + 1,
                    at + 1 + from.len(),
                ));
                assert(occurs_at(text, from, at + 1));
            }
        }
        law_nothing_to_replace(rest, from, to);
        assert(seq![text[0]] + rest =~= text);
    }
}

/// The text `text` with every occurrence of `from` replaced by `to`.
pub fn replace_all(text: &str, from: &str, to: &str) -> (result: String)
    ensures
        result@ == replaced(text@, from@, to@),
{
    let chars = chars_of(text);
    let pattern = chars_of(from);
    if pattern.len() == 0 {
        return text.to_owned();
    }
    let mut result = String::new();
    let mut start: usize = 0;
    let mut i: usize = 0;
    proof {
        assert(text@.skip(0) =~= text@);
        assert(result@ + text@.subrange(0, 0) + replaced(text@.skip(0), from@, to@) =~= replaced(
            text@,
            from@,
            to@,
        ));
    }
    while pattern.len() <= chars.len() - i
        invariant
            start <= i <= chars.len(),
            chars@ == text@,
            pattern@ == from@,
            pattern.len() > 0,
            replaced(text@, from@, to@) == result@ + text@.subrange(start as int, i as int)
                + replaced(text@.skip(i as int), from@, to@),
        decreases chars.len() - i,
    {
        let ghost rest = text@.skip(i as int);
        proof {
            assert(rest.subrange(0, from@.len() as int) =~= text@.subrange(
                i as int,
                i + from@.len(),
            ));
        }
        if matches_at(&chars, &pattern, i) {
            let ghost copied = result@;
            result.append(text.substring_char(start, i));
            result.append(to);
            proof {
                assert(rest.skip(from@.len() as int) =~= text@.skip(i + from@.len()));
                assert(text@.subrange(i + from@.len(), i + from@.len()) =~= Seq::<char>::empty());
                assert(replaced(text@, from@, to@) =~= result@ + text@.subrange(
                    i + from@.len(),
                    i + from@.len(),
                ) + replaced(text@.skip(i + from@.len()), from@, to@));
            }
            i += pattern.len();
            start = i;
        } else {
            proof {
                assert(rest.skip(1) =~= text@.skip(i + 1));
                assert(text@.subrange(start as int, i as int) + seq![rest[0]] =~= text@.subrange(
                    start as int,
                    i + 1,
                ));
                assert(replaced(text@, from@, to@) =~= result@ + text@.subrange(
                    start as int,
                    i + 1,
                ) + replaced(text@.skip(i + 1), from@, to@));
            }
            i += 1;
        }
    }
    proof {
        assert(text@.subrange(start as int, i as int) + text@.skip(i as int) =~= text@.subrange(
            start as int,
            text@.len() as int,
        ));
        assert(replaced(text@, from@, to@) =~= result@ + text@.subrange(
            start as int,
            text@.len() as int,
        ));
    }
    result.append(text.substring_char(start, chars.len()));
    result
}

/// The place of the first `separator` in `text`, or the length of `text`
/// where it holds none.
pub open spec fn first_separator(text: Seq<char>, separator: char) -> int
    decreases text.len(),
{
    if text.len() == 0 || text[0] == separator {
        0
    } else {
        1 + first_separator(text.skip(1), separator)
    }
}

/// The pieces into which the separators cut a text, in their order. A text
/// without separators is one piece, and so is a text without characters.
pub open spec fn pieces(text: Seq<char>, separator: char) -> Seq<Seq<char>>
    decreases text.len(),
{
    let at = first_separator(text, separator);
    if 0 <= at < text.len() {
        seq![text.take(at)] + pieces(text.skip(at + 1), separator)
    } else {
        seq![text]
    }
}

/// The pieces `parts` with `separator` between each two of them.
pub open spec fn glued(parts: Seq<Seq<char>>, separator: char) -> Seq<char>
    decreases parts.len(),
{
    if parts.len() == 0 {
        Seq::empty()
    } else if parts.len() == 1 {
        parts[0]
    } else {
        parts[0] + seq![separator] + glued(parts.drop_first(), separator)
    }
}

/// The first separator lies within the text or at its end; before it stands
/// no separator, and at it, within the text, stands one.
pub proof fn lemma_first_separator(text: Seq<char>, separator: char)
    ensures
        0 <= first_separator(text, separator) <= text.len(),
        forall|j: int| 0 <= j < first_separator(text, separator) ==> text[j] != separator,
        first_separator(text, separator) < text.len() ==> text[first_separator(text, separator)]
            == separator,
    decreases text.len(),
{
    if text.len() > 0 && text[0] != separator {
        let rest = text.skip(1);
        lemma_first_separator(rest, separator);
        assert forall|j: int| 0 <= j < first_separator(text, separator) implies text[j]
            != separator by {
            if j > 0 {
                assert(rest[j - 1] == text[j]);
            }
        }
        if first_separator(text, separator) < text.len() {
            assert(rest[first_separator(rest, separator)] == text[first_separator(
                text,
                separator,
            )]);
        }
    }
}

/// Cutting loses nothing: no piece of a text holds the separator, there is at
/// least one piece, and the pieces with the separator between them are the
/// text again.
pub proof fn law_pieces_glue_back(text: Seq<char>, separator: char)
    ensures
        pieces(text, separator).len() >= 1,
        forall|i: int, j: int|
            0 <= i < pieces(text, separator).len() && 0 <= j < pieces(text, separator)[i].len()
                ==> #[trigger] pieces(text, separator)[i][j] != separator,
        glued(pieces(text, separator), separator) == text,
    decreases text.len(),
{
    lemma_first_separator(text, separator);
    let at = first_separator(text, separator);
    let parts = pieces(text, separator);
    if at < text.len() {
        let rest = text.skip(at + 1);
        let later = pieces(rest, separator);
        law_pieces_glue_back(rest, separator);
        assert(parts =~= seq![text.take(at)] + later);
        assert(parts.drop_first() =~= later);
        assert(glued(parts, separator) =~= text.take(at) + seq![separator] + rest);
        assert(text.take(at) + seq![separator] + rest =~= text);
        assert forall|i: int, j: int|
            0 <= i < parts.len() && 0 <= j < parts[i].len() implies #[trigger] parts[i][j]
            != separator by {
            if i == 0 {
                assert(parts[0][j] == text[j]);
            } else {
                assert(parts[i] == later[i - 1]);
            }
        }
    }
}

/// The first separator stands where a separator stands and none stands
/// before.
pub proof fn lemma_first_separator_at(text: Seq<char>, separator: char, at: int)
    requires
        0 <= at <= text.len(),
        forall|j: int| 0 <= j < at ==> text[j] != separator,
        at < text.len() ==> text[at] == separator,
    ensures
        first_separator(text, separator) == at,
    decreases at,
{
    if at > 0 {
        assert(text[0] != separator);
        assert forall|j: int| 0 <= j < at - 1 implies text.skip(1)[j] != separator by {
            assert(text.skip(1)[j] == text[j + 1]);
        }
        lemma_first_separator_at(text.skip(1), separator, at - 1);
    }
}

/// The pieces into which `separator` cuts `text`.
pub fn split(text: &str, separator: char) -> (parts: Vec<String>)
    ensures
        parts.deep_view() == pieces(text@, separator),
{
    let chars = chars_of(text);
    let mut parts: Vec<String> = Vec::new();
    let mut start: usize = 0;
    let mut i: usize = 0;
    proof {
        assert(text@.skip(0) =~= text@);
        assert(parts.deep_view() + pieces(text@.skip(0), separator) =~= pieces(text@, separator));
    }
    while i < chars.len()
        invariant
            start <= i <= chars.len(),
            chars@ == text@,
            forall|j: int| start <= j < i ==> text@[j] != separator,
            pieces(text@, separator) == parts.deep_view() + pieces(
                text@.skip(start as int),
                separator,
            ),
        decreases chars.len() - i,
    {
        if chars[i] == separator {
            let ghost rest = text@.skip(start as int);
            let ghost cut = parts.deep_view();
            let piece = text.substring_char(start, i).to_owned();
            parts.push(piece);
            proof {
                assert forall|j: int| 0 <= j < i - start implies rest[j] != separator by {
                    assert(rest[j] == text@[start + j]);
                }
                lemma_first_separator_at(rest, separator, i - start);
                assert(rest.take(i - start) =~= text@.subrange(start as int, i as int));
                assert(rest.skip(i - start + 1) =~= text@.skip(i + 1));
                assert(parts.deep_view() =~= cut.push(piece@));
                assert(pieces(text@, separator) =~= parts.deep_view() + pieces(
                    text@.skip(i + 1),
                    separator,
                ));
            }
            start = i + 1;
        }
        i += 1;
    }
    let ghost rest = text@.skip(start as int);
    let ghost cut = parts.deep_view();
    let piece = text.substring_char(start, chars.len()).to_owned();
    parts.push(piece);
    proof {
        assert forall|j: int| 0 <= j < rest.len() implies rest[j] != separator by {
            assert(rest[j] == text@[start + j]);
        }
        lemma_first_separator_at(rest, separator, rest.len() as int);
        assert(rest =~= text@.subrange(start as int, text@.len() as int));
        assert(parts.deep_view() =~= cut.push(piece@));
    }
    parts
}

/// `String::from_utf8`: the text that bytes spell in UTF-8, where they spell
/// one. Else the error's text comes back.
#[verifier::external_body]
pub(crate) fn text_from_utf8(bytes: Vec<u8>) -> (text: Result<String, String>)
    ensures
        match text {
            Ok(read) => valid_utf8(bytes@) && read@ == decode_utf8(bytes@),
            Err(_) => !valid_utf8(bytes@),
        },
{
    String::from_utf8(bytes).map_err(|error| error.to_string())
}

} // verus!
