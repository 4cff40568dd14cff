//! Finding the host by its image name in a process listing.
//!
//! The listing is the comma-separated table that the system's task lister
//! prints for one image name: a header line, then one line per process with
//! the image name in the first field and the process id in the second, each
//! field in double quotes. The caller runs the lister; this module reads what
//! it printed.

use crate::injector::{terminated_size, InjectAction, InjectConfig, Injection, PayloadArtifact};
use vstd::prelude::*;
use vstd::string::*;
use vstd::utf8::encode_utf8;

verus! {

/// The byte that ends a line.
pub const LINE_FEED: u8 = 10;

/// The byte that may stand before the line feed.
pub const CARRIAGE_RETURN: u8 = 13;

/// The double quote in which the lister puts each field.
pub const QUOTE: u8 = 34;

/// The plus sign that a number may begin with.
pub const PLUS: u8 = 43;

/// The comma between two fields.
pub const COMMA: u8 = 44;

/// The digit `0`.
pub const DIGIT_ZERO: u8 = 48;

/// The digit `9`.
pub const DIGIT_NINE: u8 = 57;

/// The number of image names under which the host is known to run.
pub const KNOWN_NAMES: usize = 3;

/// Index of the first `delimiter` in `text`, or the length of `text` where it
/// holds none.
pub open spec fn first_index(text: Seq<u8>, delimiter: u8) -> nat
    decreases text.len(),
{
    if text.len() == 0 || text[0] == delimiter {
        0
    } else {
        1 + first_index(text.skip(1), delimiter)
    }
}

/// Whether `word` lies in `text` starting at `at`.
pub open spec fn occurs_at(text: Seq<u8>, word: Seq<u8>, at: int) -> bool {
    &&& 0 <= at
    &&& at + word.len() <= text.len()
    &&& forall|j: int| 0 <= j < word.len() ==> text[at + j] == #[trigger] word[j]
}

/// Whether `word` lies somewhere in `text`. The empty word lies in every text.
pub open spec fn mentions(text: Seq<u8>, word: Seq<u8>) -> bool {
    exists|at: int| occurs_at(text, word, at)
}

/// `text` without the run of `byte` it starts with.
pub open spec fn trim_front(text: Seq<u8>, byte: u8) -> Seq<u8>
    decreases text.len(),
{
    if text.len() > 0 && text[0] == byte {
        trim_front(text.skip(1), byte)
    } else {
        text
    }
}

/// `text` without the run of `byte` it ends with.
pub open spec fn trim_back(text: Seq<u8>, byte: u8) -> Seq<u8>
    decreases text.len(),
{
    if text.len() > 0 && text.last() == byte {
        trim_back(text.drop_last(), byte)
    } else {
        text
    }
}

/// A field without the double quotes around it.
pub open spec fn unquoted(field: Seq<u8>) -> Seq<u8> {
    trim_back(trim_front(field, QUOTE), QUOTE)
}

/// Whether `byte` is a decimal digit.
pub open spec fn is_digit(byte: u8) -> bool {
    DIGIT_ZERO <= byte <= DIGIT_NINE
}

/// Whether `text` holds decimal digits only.
pub open spec fn all_digits(text: Seq<u8>) -> bool {
    forall|i: int| 0 <= i < text.len() ==> is_digit(#[trigger] text[i])
}

/// The number that a run of decimal digits writes.
pub open spec fn decimal_value(digits: Seq<u8>) -> nat
    decreases digits.len(),
{
    if digits.len() == 0 {
        0
    } else {
        decimal_value(digits.drop_last()) * 10 + (digits.last() - DIGIT_ZERO) as nat
    }
}

/// The digits of a number written with or without a plus sign before it. A
/// lone plus sign is no sign.
pub open spec fn digits_of(text: Seq<u8>) -> Seq<u8> {
    if text.len() > 1 && text[0] == PLUS {
        text.skip(1)
    } else {
        text
    }
}

/// The number that `text` writes in decimal, where it writes one that fits
/// 32 bits: an optional plus sign, then at least one digit and nothing else.
pub open spec fn decimal_u32(text: Seq<u8>) -> Option<u32> {
    let digits = digits_of(text);
    if digits.len() > 0 && all_digits(digits) && decimal_value(digits) <= u32::MAX {
        Some(decimal_value(digits) as u32)
    } else {
        None
    }
}

/// The second comma-separated field of `line`, where it has one.
pub open spec fn second_field(line: Seq<u8>) -> Option<Seq<u8>> {
    let comma = first_index(line, COMMA) as int;
    if comma < line.len() {
        let rest = line.skip(comma + 1);
        Some(rest.take(first_index(rest, COMMA) as int))
    } else {
        None
    }
}

/// The process id that one line of the listing gives for `name`: the line
/// has to mention the name, and its second field, unquoted, has to write a
/// number.
pub open spec fn line_pid(name: Seq<u8>, line: Seq<u8>) -> Option<u32> {
    match second_field(line) {
        Some(field) if mentions(line, name) => decimal_u32(unquoted(field)),
        _ => None,
    }
}

/// The first line of `text`, without its line ending. A line ends at a line
/// feed; a carriage return just before that line feed belongs to the ending.
pub open spec fn leading_line(text: Seq<u8>) -> Seq<u8> {
    let end = first_index(text, LINE_FEED) as int;
    let line = text.take(end);
    if end < text.len() && line.len() > 0 && line.last() == CARRIAGE_RETURN {
        line.drop_last()
    } else {
        line
    }
}

/// What follows the first line of `text`.
pub open spec fn after_leading_line(text: Seq<u8>) -> Seq<u8> {
    let end = first_index(text, LINE_FEED) as int;
    if end < text.len() {
        text.skip(end + 1)
    } else {
        Seq::empty()
    }
}

/// The process id given by the first line of `text` that gives one.
pub open spec fn first_pid(name: Seq<u8>, text: Seq<u8>) -> Option<u32>
    decreases text.len(),
{
    if text.len() == 0 {
        None
    } else {
        match line_pid(name, leading_line(text)) {
            Some(pid) => Some(pid),
            None => first_pid(name, after_leading_line(text)),
        }
    }
}

/// The process id that a listing gives for `name`: that of the first line
/// after the header that gives one.
pub open spec fn listed_pid(name: Seq<u8>, listing: Seq<u8>) -> Option<u32> {
    first_pid(name, after_leading_line(listing))
}

/// The `index`-th known image name of the host.
pub open spec fn known_name(index: int) -> Seq<char> {
    if index == 0 {
        "gmod.exe"@
    } else if index == 1 {
        "hl2.exe"@
    } else {
        "garrysmod.exe"@
    }
}

/// Whether the `index`-th listing gives no process id for the `index`-th
/// known name. A listing that is missing gives none.
pub open spec fn name_unlisted(listings: Seq<String>, index: int) -> bool {
    index < listings.len() ==> listed_pid(
        encode_utf8(known_name(index)),
        encode_utf8(listings[index]@),
    ) is None
}

/// The first index lies within the text, no byte before it is the
/// delimiter, and the byte at it is, unless the text ends there.
pub proof fn lemma_first_index_bounds(text: Seq<u8>, delimiter: u8)
    ensures
        first_index(text, delimiter) <= text.len(),
        forall|k: int| 0 <= k < first_index(text, delimiter) ==> text[k] != delimiter,
        first_index(text, delimiter) < text.len() ==> text[first_index(text, delimiter) as int]
            == delimiter,
    decreases text.len(),
{
    if text.len() == 0 || text[0] == delimiter {
    } else {
        let tail = text.skip(1);
        lemma_first_index_bounds(tail, delimiter);
        assert forall|k: int| 0 <= k < first_index(text, delimiter) implies text[k]
            != delimiter by {
            if k > 0 {
                assert(tail[k - 1] == text[k]);
            }
        }
        let found = first_index(tail, delimiter) as int;
        if found < tail.len() {
            assert(tail[found] == text[found + 1]);
        }
    }
}

/// An index up to which no byte is the delimiter, and which holds it or ends
/// the text, is the first index of the delimiter.
pub proof fn lemma_first_index_is(text: Seq<u8>, delimiter: u8, index: int)
    requires
        0 <= index <= text.len(),
        forall|k: int| 0 <= k < index ==> text[k] != delimiter,
        index == text.len() || text[index] == delimiter,
    ensures
        first_index(text, delimiter) == index,
{
    lemma_first_index_bounds(text, delimiter);
}

/// Finds the first `delimiter` in `text`.
fn find_byte(text: &[u8], delimiter: u8) -> (index: usize)
    ensures
        index == first_index(text@, delimiter),
        index <= text@.len(),
{
    let mut index: usize = 0;
    while index < text.len() && text[index] != delimiter
        invariant
            index <= text@.len(),
            forall|k: int| 0 <= k < index ==> text@[k] != delimiter,
        decreases text@.len() - index,
    {
        index = index + 1;
    }
    proof {
        lemma_first_index_is(text@, delimiter, index as int);
    }
    index
}

/// Compares `word` with what lies in `text` at `at`.
fn word_at(text: &[u8], word: &[u8], at: usize) -> (found: bool)
    requires
        at + word@.len() <= text@.len(),
    ensures
        found == occurs_at(text@, word@, at as int),
{
    let size: usize = text.len();
    let mut j: usize = 0;
    while j < word.len()
        invariant
            j <= word@.len(),
            at + word@.len() <= text@.len() == size,
            forall|t: int| 0 <= t < j ==> text@[at + t] == #[trigger] word@[t],
        decreases word@.len() - j,
    {
        if text[at + j] != word[j] {
            return false;
        }
        j = j + 1;
    }
    true
}

/// Looks for `word` in `text`.
fn mentions_word(text: &[u8], word: &[u8]) -> (found: bool)
    ensures
        found == mentions(text@, word@),
{
    if word.len() > text.len() {
        return false;
    }
    if word.len() == 0 {
        assert(occurs_at(text@, word@, 0));
        return true;
    }
    let size: usize = text.len();
    let last: usize = size - word.len();
    let mut at: usize = 0;
    while at <= last
        invariant
            last == text@.len() - word@.len(),
            0 < word@.len(),
            text@.len() == size,
            at <= last + 1,
            forall|k: int| 0 <= k < at ==> !occurs_at(text@, word@, k),
        decreases last + 1 - at,
    {
        if word_at(text, word, at) {
            return true;
        }
        at = at + 1;
    }
    false
}

/// Drops the double quotes at both ends of `field`.
fn strip_quotes(field: &[u8]) -> (stripped: &[u8])
    ensures
        stripped@ == unquoted(field@),
{
    let size: usize = field.len();
    let mut low: usize = 0;
    assert(field@.skip(0) =~= field@);
    while low < size && field[low] == QUOTE
        invariant
            low <= size == field@.len(),
            trim_front(field@, QUOTE) == trim_front(field@.skip(low as int), QUOTE),
        decreases size - low,
    {
        assert(field@.skip(low as int).skip(1) =~= field@.skip(low + 1));
        low = low + 1;
    }
    assert(trim_front(field@, QUOTE) == field@.skip(low as int));
    let mut high: usize = size;
    while high > low && field[high - 1] == QUOTE
        invariant
            low <= high <= size == field@.len(),
            trim_back(field@.skip(low as int), QUOTE) == trim_back(
                field@.subrange(low as int, high as int),
                QUOTE,
            ),
        decreases high - low,
    {
        assert(field@.subrange(low as int, high as int).drop_last() =~= field@.subrange(
            low as int,
            high - 1,
        ));
        high = high - 1;
    }
    proof {
        assert(field@.skip(low as int) =~= field@.subrange(low as int, size as int));
    }
    &field[low..high]
}

/// The digits read so far never write more than all of them do.
proof fn lemma_decimal_prefix(digits: Seq<u8>, count: int)
    requires
        0 <= count <= digits.len(),
    ensures
        decimal_value(digits.take(count)) <= decimal_value(digits),
    decreases digits.len() - count,
{
    if count < digits.len() {
        lemma_decimal_prefix(digits, count + 1);
        assert(digits.take(count + 1).drop_last() =~= digits.take(count));
    } else {
        assert(digits.take(count) =~= digits);
    }
}

/// Reads the number that `text` writes.
fn parse_decimal(text: &[u8]) -> (number: Option<u32>)
    ensures
        number == decimal_u32(text@),
{
    let start: usize = if text.len() > 1 && text[0] == PLUS {
        1
    } else {
        0
    };
    let digits = &text[start..text.len()];
    assert(digits@ =~= digits_of(text@));
    let count: usize = digits.len();
    if count == 0 {
        return None;
    }
    let mut value: u32 = 0;
    let mut i: usize = 0;
    while i < count
        invariant
            i <= count == digits@.len(),
            digits@ == digits_of(text@),
            all_digits(digits@.take(i as int)),
            value == decimal_value(digits@.take(i as int)),
        decreases count - i,
    {
        let byte: u8 = digits[i];
        if byte < DIGIT_ZERO || byte > DIGIT_NINE {
            assert(!is_digit(digits@[i as int]));
            return None;
        }
        let digit: u32 = (byte - DIGIT_ZERO) as u32;
        proof {
            assert(digits@.take(i + 1).drop_last() =~= digits@.take(i as int));
            assert(digits@.take(i + 1).last() == byte);
            lemma_decimal_prefix(digits@, i + 1);
        }
        if value > (u32::MAX - digit) / 10 {
            return None;
        }
        value = value * 10 + digit;
        assert forall|k: int| 0 <= k < i + 1 implies is_digit(
            #[trigger] digits@.take(i + 1)[k],
        ) by {
            if k < i {
                assert(digits@.take(i as int)[k] == digits@.take(i + 1)[k]);
            }
        }
        i = i + 1;
    }
    assert(digits@.take(count as int) =~= digits@);
    Some(value)
}

/// Reads the process id that `line` gives for `name`.
fn pid_of_line(name: &[u8], line: &[u8]) -> (pid: Option<u32>)
    ensures
        pid == line_pid(name@, line@),
{
    if !mentions_word(line, name) {
        return None;
    }
    let comma: usize = find_byte(line, COMMA);
    if comma >= line.len() {
        return None;
    }
    let rest = &line[comma + 1..line.len()];
    assert(rest@ =~= line@.skip(comma + 1));
    let end: usize = find_byte(rest, COMMA);
    let field = &rest[0..end];
    assert(field@ =~= rest@.take(end as int));
    parse_decimal(strip_quotes(field))
}

/// Reads process listings.
pub struct ProcessUtils;

impl ProcessUtils {
    /// The `index`-th image name under which the host is known to run; the
    /// names are tried in this order. There are `KNOWN_NAMES` of them.
    pub fn gmod_process_name(index: usize) -> (name: Option<&'static str>)
        ensures
            name is Some <==> index < KNOWN_NAMES,
            name matches Some(text) ==> text@ == known_name(index as int),
    {
        if index == 0 {
            Some("gmod.exe")
        } else if index == 1 {
            Some("hl2.exe")
        } else if index == 2 {
            Some("garrysmod.exe")
        } else {
            None
        }
    }

    /// Whether the listing printed for `process_name` shows that a process of
    /// that name runs: the name occurs in it.
    pub fn is_process_running(process_name: &str, listing: &str) -> (running: bool)
        ensures
            running == mentions(encode_utf8(listing@), encode_utf8(process_name@)),
    {
        mentions_word(listing.as_bytes(), process_name.as_bytes())
    }

    /// The process id that `listing` gives for `process_name`: after the
    /// header line, the first line that mentions the name and whose second
    /// field, without its quotes, is a decimal number of 32 bits.
    pub fn get_process_id(process_name: &str, listing: &str) -> (pid: Option<u32>)
        ensures
            pid == listed_pid(encode_utf8(process_name@), encode_utf8(listing@)),
    {
        let name = process_name.as_bytes();
        let text = listing.as_bytes();
        let size: usize = text.len();
        let header_end: usize = find_byte(text, LINE_FEED);
        if header_end >= size {
            return None;
        }
        let mut start: usize = header_end + 1;
        while start < size
            invariant
                start <= size == text@.len(),
                name@ == encode_utf8(process_name@),
                text@ == encode_utf8(listing@),
                listed_pid(name@, text@) == first_pid(name@, text@.skip(start as int)),
            decreases size - start,
        {
            let rest = &text[start..size];
            assert(rest@ =~= text@.skip(start as int));
            let end: usize = find_byte(rest, LINE_FEED);
            let terminated: bool = end < rest.len();
            let line_end: usize = if terminated && end > 0 && rest[end - 1] == CARRIAGE_RETURN {
                end - 1
            } else {
                end
            };
            let line = &rest[0..line_end];
            assert(line@ =~= leading_line(rest@)) by {
                if end > 0 {
                    assert(rest@.take(end as int).drop_last() =~= rest@.take(end - 1));
                }
            }
            match pid_of_line(name, line) {
                Some(pid) => {
                    return Some(pid);
                },
                None => {},
            }
            if !terminated {
                assert(first_pid(name@, after_leading_line(rest@)) is None);
                return None;
            }
            assert(rest@.skip(end + 1) =~= text@.skip(start + end + 1));
            start = start + end + 1;
        }
        None
    }

    /// Begins to load `payload` into the process that was found. `file_size`
    /// is what the file system says of the payload file now: its size, or
    /// `None` where the file cannot be found or read. The plan that is
    /// returned says what to do first; where the payload file is missing or
    /// empty it is over at once, and the process is not touched.
    pub fn inject_dll(
        payload: &PayloadArtifact,
        file_size: Option<u64>,
        config: InjectConfig,
    ) -> (begun: (Injection, InjectAction))
        ensures
            begun == Injection::begin(terminated_size(payload@.len()) as usize, file_size, config),
            begun.0.consistent(),
            begun.1 is Finish <==> file_size is None || file_size == Some(0u64),
    {
        Injection::start(payload, file_size, config)
    }

    /// Looks for the host under each of its known image names in turn.
    /// `listings` holds, in that order, what the task lister printed for
    /// each name; the process id of the first name that is listed is
    /// returned together with that name.
    pub fn find_gmod_process(listings: &Vec<String>) -> (found: Option<(u32, String)>)
        ensures
            match found {
                Some((pid, name)) => exists|i: int|
                    {
                        &&& 0 <= i < KNOWN_NAMES
                        &&& i < listings@.len()
                        &&& name@ == known_name(i)
                        &&& #[trigger] listed_pid(
                            encode_utf8(known_name(i)),
                            encode_utf8(listings@[i]@),
                        ) == Some(pid)
                        &&& forall|j: int| 0 <= j < i ==> name_unlisted(listings@, j)
                    },
                None => forall|j: int| 0 <= j < KNOWN_NAMES ==> name_unlisted(listings@, j),
            },
    {
        let mut index: usize = 0;
        while index < KNOWN_NAMES && index < listings.len()
            invariant
                index <= KNOWN_NAMES,
                forall|j: int| 0 <= j < index ==> name_unlisted(listings@, j),
            decreases KNOWN_NAMES - index,
        {
            match Self::gmod_process_name(index) {
                Some(name) => match Self::get_process_id(name, listings[index].as_str()) {
                    Some(pid) => {
                        return Some((pid, String::from_str(name)));
                    },
                    None => {},
                },
                None => {},
            }
            index = index + 1;
        }
        None
    }
}

} // verus!
