//! Which of the MIDI ports that a machine offers is the device's.
//!
//! With one port there is nothing to choose. With several, the device's is the one
//! whose name the device's pattern is found in, and the last of them where there are
//! more. Where no name fits, the user has to be asked.

use vstd::prelude::*;

verus! {

/// Whether the regular expression `pattern` is found anywhere in `text`: `None` where
/// `pattern` is not a regular expression that the engine takes.
pub uninterp spec fn pattern_found(pattern: Seq<char>, text: Seq<char>) -> Option<bool>;

/// Compiles `pattern` with `regex::Regex::new` and searches `text` for it with
/// `Regex::is_match`. Both depend on their arguments alone, and the search does not
/// fail; nothing more is claimed of them than that the outcome has a name.
#[verifier::external_body]
fn search(pattern: &str, text: &str) -> (found: Option<bool>)
    ensures
        found == pattern_found(pattern@, text@),
{
    match regex::Regex::new(pattern) {
        Ok(expression) => Some(expression.is_match(text)),
        Err(_) => None,
    }
}

/// What to do about the port.
#[derive(Copy, Clone, Debug, PartialEq, Eq, Structural)]
pub enum PortChoice {
    /// There is no port.
    NoPort,
    /// Use the port at this place in the list.
    Port(usize),
    /// No port's name fits: ask the user.
    Ask,
}

/// The place of the last `true` in `fits`, if there is one.
pub open spec fn last_fit(fits: Seq<bool>) -> Option<int>
    decreases fits.len(),
{
    if fits.len() == 0 {
        None
    } else if fits.last() {
        Some(fits.len() - 1)
    } else {
        last_fit(fits.drop_last())
    }
}

/// The choice among ports of which `fits` says, in the order of the list, whether
/// each one's name fits the device.
pub open spec fn port_choice(fits: Seq<bool>) -> PortChoice {
    if fits.len() == 0 {
        PortChoice::NoPort
    } else if fits.len() == 1 {
        PortChoice::Port(0)
    } else {
        match last_fit(fits) {
            Some(place) => PortChoice::Port(place as usize),
            None => PortChoice::Ask,
        }
    }
}

/// The pattern by which the device's port is known.
pub open spec fn spec_device_pattern() -> Seq<char> {
    "Launchpad X MIDI 2"@
}

/// The pattern by which the device's port is known.
pub fn device_pattern() -> (pattern: &'static str)
    ensures
        pattern@ == spec_device_pattern(),
{
    "Launchpad X MIDI 2"
}

/// For each of `names`, whether the device's pattern is found in it. A name counts as
/// fitting only where the search says so.
pub open spec fn fits_of(names: Seq<String>) -> Seq<bool> {
    Seq::new(names.len(), |i: int| pattern_found(spec_device_pattern(), names[i]@) == Some(true))
}

/// `last_fit` gives the place of a `true` behind which there is no other, and gives none
/// only where there is no `true` at all.
pub proof fn lemma_last_fit(fits: Seq<bool>)
    ensures
        match last_fit(fits) {
            Some(place) => 0 <= place < fits.len() && fits[place] && forall|k: int|
                place < k < fits.len() ==> !fits[k],
            None => forall|k: int| 0 <= k < fits.len() ==> !fits[k],
        },
    decreases fits.len(),
{
    if fits.len() > 0 && !fits.last() {
        let front = fits.drop_last();
        lemma_last_fit(front);
        match last_fit(front) {
            Some(place) => {
                assert forall|k: int| place < k < fits.len() implies !fits[k] by {
                    if k < front.len() {
                        assert(!front[k]);
                    }
                }
            },
            None => {
                assert forall|k: int| 0 <= k < fits.len() implies !fits[k] by {
                    if k < front.len() {
                        assert(!front[k]);
                    }
                }
            },
        }
    }
}

/// Chooses among ports of which `fits` says whether each one's name fits the device.
pub fn choose_port(fits: &Vec<bool>) -> (choice: PortChoice)
    ensures
        choice == port_choice(fits@),
{
    let count = fits.len();
    if count == 0 {
        return PortChoice::NoPort;
    }
    if count == 1 {
        return PortChoice::Port(0);
    }
    let mut found: Option<usize> = None;
    let mut next: usize = 0;
    while next < count
        invariant
            count == fits.len(),
            next <= count,
            match found {
                Some(place) => last_fit(fits@.take(next as int)) == Some(place as int),
                None => last_fit(fits@.take(next as int)) == None::<int>,
            },
        decreases count - next,
    {
        proof {
            let seen = fits@.take(next + 1);
            assert(seen.drop_last() =~= fits@.take(next as int));
        }
        if fits[next] {
            found = Some(next);
        }
        next += 1;
    }
    proof {
        assert(fits@.take(count as int) =~= fits@);
    }
    match found {
        Some(place) => PortChoice::Port(place),
        None => PortChoice::Ask,
    }
}

/// Chooses among the ports with the names `names`, listed as the machine lists them.
pub fn select_port(names: &Vec<String>) -> (choice: PortChoice)
    ensures
        choice == port_choice(fits_of(names@)),
{
    let count = names.len();
    let mut fits: Vec<bool> = Vec::new();
    if count > 1 {
        let pattern = device_pattern();
        let mut next: usize = 0;
        while next < count
            invariant
                count == names.len(),
                next <= count,
                pattern@ == spec_device_pattern(),
                fits@ == fits_of(names@).take(next as int),
            decreases count - next,
        {
            let fit = match search(pattern, names[next].as_str()) {
                Some(found) => found,
                None => false,
            };
            fits.push(fit);
            next += 1;
        }
        assert(fits@ =~= fits_of(names@));
        choose_port(&fits)
    } else if count == 1 {
        PortChoice::Port(0)
    } else {
        PortChoice::NoPort
    }
}

/// The character `c` is white space: it has the Unicode property White_Space. These
/// are the tab, the line feed, the vertical tab, the form feed, the carriage return
/// and the space; the next-line character and the no-break space; and the spaces and
/// separators from U+1680 on that the property lists.
pub open spec fn is_white_space(c: char) -> bool {
    let code = c as u32;
    ||| 0x09 <= code <= 0x0D
    ||| code == 0x20
    ||| code == 0x85
    ||| code == 0xA0
    ||| code == 0x1680
    ||| 0x2000 <= code <= 0x200A
    ||| code == 0x2028
    ||| code == 0x2029
    ||| code == 0x202F
    ||| code == 0x205F
    ||| code == 0x3000
}

/// `text` without the white space at its start.
pub open spec fn trimmed_start(text: Seq<char>) -> Seq<char>
    decreases text.len(),
{
    if text.len() > 0 && is_white_space(text.first()) {
        trimmed_start(text.drop_first())
    } else {
        text
    }
}

/// `text` without the white space at its end.
pub open spec fn trimmed_end(text: Seq<char>) -> Seq<char>
    decreases text.len(),
{
    if text.len() > 0 && is_white_space(text.last()) {
        trimmed_end(text.drop_last())
    } else {
        text
    }
}

/// `text` without the white space at its start and at its end.
pub open spec fn trimmed(text: Seq<char>) -> Seq<char> {
    trimmed_end(trimmed_start(text))
}

/// The character `c` is one of the decimal digits `0` to `9`.
pub open spec fn is_digit(c: char) -> bool {
    0x30 <= c as u32 <= 0x39
}

/// The number that the decimal digits `digits` write, the empty text writing 0.
pub open spec fn digits_value(digits: Seq<char>) -> int
    decreases digits.len(),
{
    if digits.len() == 0 {
        0
    } else {
        10 * digits_value(digits.drop_last()) + (digits.last() as u32 - 0x30)
    }
}

/// `text` without the plus sign that it may start with.
pub open spec fn unsigned_part(text: Seq<char>) -> Seq<char> {
    if text.len() > 0 && text.first() == '+' {
        text.drop_first()
    } else {
        text
    }
}

/// The number that `text` is read as: `text` has to be one or more decimal digits,
/// with at most a plus sign before them and nothing else, and the number has to fit
/// in 64 bits. `None` for any other text.
pub open spec fn parsed_number(text: Seq<char>) -> Option<u64> {
    let digits = unsigned_part(text);
    if digits.len() > 0 && (forall|k: int| 0 <= k < digits.len() ==> is_digit(#[trigger] digits[k]))
        && digits_value(digits) <= u64::MAX {
        Some(digits_value(digits) as u64)
    } else {
        None
    }
}

/// A line that holds one decimal digit and its line feed is read as that digit's
/// number.
pub proof fn lemma_one_digit_line(digit: char)
    requires
        is_digit(digit),
    ensures
        trimmed(seq![digit, '\n']) == seq![digit],
        parsed_number(trimmed(seq![digit, '\n'])) == Some((digit as u32 - 0x30) as u64),
{
    let line = seq![digit, '\n'];
    let number = seq![digit];
    reveal_with_fuel(trimmed_start, 2);
    reveal_with_fuel(trimmed_end, 3);
    reveal_with_fuel(digits_value, 2);
    assert(line.drop_last() =~= number);
    assert(trimmed(line) =~= number);
    assert(number.drop_last() =~= Seq::<char>::empty());
    assert(unsigned_part(number) =~= number);
}

/// A text with a character that is neither a decimal digit nor, at its start, a plus
/// sign is read as no number.
pub proof fn lemma_other_characters_are_no_number(text: Seq<char>, place: int)
    requires
        0 <= place < text.len(),
        !is_digit(text[place]),
        place > 0 || text[place] != '+',
    ensures
        parsed_number(text) is None,
{
    let digits = unsigned_part(text);
    if text.first() == '+' {
        assert(digits[place - 1] == text[place]);
    } else {
        assert(digits[place] == text[place]);
    }
}

/// Strips `text` with `str::trim`. Its documentation says that it returns the text
/// with leading and trailing white space removed, white space being the characters
/// of the Unicode property White_Space; the contract says that and no more.
#[verifier::external_body]
fn trim(text: &str) -> (stripped: &str)
    ensures
        stripped@ == trimmed(text@),
{
    text.trim()
}

/// Reads `text` with `str::parse` as a `u64`, and gives `None` where that fails. The
/// documentation of `u64`'s `from_str` says that the text is to be an optional plus
/// sign followed by decimal digits only, and that an empty text, any other character
/// and a number too large for the type are errors; the contract says that and no
/// more.
#[verifier::external_body]
fn parse_number(text: &str) -> (number: Option<u64>)
    ensures
        number == parsed_number(text@),
{
    match text.parse::<u64>() {
        Ok(number) => Some(number),
        Err(_) => None,
    }
}

/// Why an answer names no port.
#[derive(Copy, Clone, Debug, PartialEq, Eq, Structural)]
pub enum SelectionError {
    /// The answer is not a number.
    NotANumber,
    /// The list has no port at that place.
    NoSuchPort,
}

/// The place that the number `number` names in a list of `count` ports.
pub open spec fn selection(number: Option<u64>, count: usize) -> Result<usize, SelectionError> {
    match number {
        None => Err(SelectionError::NotANumber),
        Some(place) => if place < count {
            Ok(place as usize)
        } else {
            Err(SelectionError::NoSuchPort)
        },
    }
}

/// The place that a number names in a list of `count` ports, counted from 0, or why
/// it names none.
pub fn check_selection(number: Option<u64>, count: usize) -> (place: Result<usize, SelectionError>)
    ensures
        place == selection(number, count),
{
    match number {
        None => Err(SelectionError::NotANumber),
        Some(place) => {
            if place < count as u64 {
                Ok(place as usize)
            } else {
                Err(SelectionError::NoSuchPort)
            }
        },
    }
}

/// The place that the user's answer `answer` names in a list of `count` ports. White
/// space around the number, such as the end of the line, does not count.
pub fn parse_selection(answer: &str, count: usize) -> (place: Result<usize, SelectionError>)
    ensures
        place == selection(parsed_number(trimmed(answer@)), count),
{
    check_selection(parse_number(trim(answer)), count)
}

} // verus!
