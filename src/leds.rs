//! Keyboard-LED reader: decides from the entries of the LED class directory
//! whether caps lock and num lock are on.
use vstd::prelude::*;
use crate::text::{bounded_number, parse_bounded, trim_text, trimmed};

verus! {

/// Name pattern of a caps lock LED.
pub const CAPSLOCK_PATTERN: &'static str = "input\\d+::capslock";

/// Name pattern of a num lock LED.
pub const NUMLOCK_PATTERN: &'static str = "input\\d+::numlock";

/// Whether `pattern` compiles as a regular expression that matches somewhere in `text`.
pub uninterp spec fn regex_finds(pattern: Seq<char>, text: Seq<char>) -> bool;

/// Relies on `regex::Regex::new` and `regex::Regex::is_match`: the pattern is
/// compiled once and tried on each text; each answer depends on the pattern and
/// that text alone, and a pattern that does not compile matches nothing.
#[verifier::external_body]
fn regex_match_each(pattern: &str, texts: &Vec<String>) -> (r: Vec<bool>)
    ensures
        r@.len() == texts@.len(),
        forall|i: int| 0 <= i < texts@.len() ==> r@[i] == regex_finds(pattern@, texts@[i]@),
{
    match regex::Regex::new(pattern) {
        Ok(re) => texts.iter().map(|t| re.is_match(t)).collect(),
        Err(_) => vec![false; texts.len()],
    }
}

/// The `brightness` attribute of an LED entry.
#[derive(Clone, Debug)]
pub enum BrightnessFile {
    /// The entry has no `brightness` file.
    Missing,
    /// The file exists but could not be read.
    Unreadable,
    /// The text of the file.
    Text(String),
}

/// One entry of the LED class directory.
#[derive(Clone, Debug)]
pub struct LedEntry {
    pub name: String,
    pub brightness: BrightnessFile,
}

/// Why the key states could not be decided.
#[derive(Clone, Copy, Debug, PartialEq, Eq, Structural)]
pub enum LedError {
    /// A matching entry's brightness could not be read.
    Unreadable,
    /// A matching entry's brightness is not a number that fits 32 bits.
    NotANumber,
}

/// Which lock an entry counts towards.
#[derive(Clone, Copy, Debug, PartialEq, Eq, Structural)]
pub enum LedKind {
    Capslock,
    Numlock,
    Other,
}

/// An entry counts for caps lock when its name matches that pattern and it has a
/// brightness file; otherwise for num lock on the same terms; otherwise not at all.
pub open spec fn led_kind(e: LedEntry) -> LedKind {
    let has_file = !(e.brightness is Missing);
    if regex_finds(CAPSLOCK_PATTERN@, e.name@) && has_file {
        LedKind::Capslock
    } else if regex_finds(NUMLOCK_PATTERN@, e.name@) && has_file {
        LedKind::Numlock
    } else {
        LedKind::Other
    }
}

/// The brightness that a file holds, read as a trimmed decimal number.
pub open spec fn brightness_value(b: BrightnessFile) -> Result<nat, LedError> {
    match b {
        BrightnessFile::Text(t) => match bounded_number(trimmed(t@), u32::MAX as nat) {
            Some(v) => Ok(v),
            None => Err(LedError::NotANumber),
        },
        _ => Err(LedError::Unreadable),
    }
}

/// Sums of the caps lock and the num lock brightness over the entries, in order;
/// the first entry that counts and cannot be read decides the error.
pub open spec fn led_sums(es: Seq<LedEntry>) -> Result<(nat, nat), LedError>
    decreases es.len(),
{
    if es.len() == 0 {
        Ok((0, 0))
    } else {
        match led_sums(es.drop_last()) {
            Err(x) => Err(x),
            Ok((c, n)) => {
                let e = es.last();
                match led_kind(e) {
                    LedKind::Other => Ok((c, n)),
                    LedKind::Capslock => match brightness_value(e.brightness) {
                        Ok(v) => Ok((c + v, n)),
                        Err(x) => Err(x),
                    },
                    LedKind::Numlock => match brightness_value(e.brightness) {
                        Ok(v) => Ok((c, n + v)),
                        Err(x) => Err(x),
                    },
                }
            },
        }
    }
}

/// The lock states that the entries give: each lock is on when its sum is positive.
pub open spec fn key_states_of(es: Seq<LedEntry>) -> Result<(bool, bool), LedError> {
    match led_sums(es) {
        Ok((c, n)) => Ok((c > 0, n > 0)),
        Err(x) => Err(x),
    }
}

/// The names of the entries, in order.
fn entry_names(entries: &Vec<LedEntry>) -> (r: Vec<String>)
    ensures
        r@.len() == entries@.len(),
        forall|i: int| 0 <= i < entries@.len() ==> (#[trigger] r@[i])@ == entries@[i].name@,
{
    let mut r: Vec<String> = Vec::new();
    let mut k: usize = 0;
    while k < entries.len()
        invariant
            k <= entries@.len(),
            r@.len() == k,
            forall|i: int| 0 <= i < k ==> (#[trigger] r@[i])@ == entries@[i].name@,
        decreases entries.len() - k,
    {
        r.push(entries[k].name.clone());
        k = k + 1;
    }
    r
}

/// Classifies one entry, given whether its name matches each pattern.
fn entry_kind(e: &LedEntry, caps_match: bool, num_match: bool) -> (r: LedKind)
    requires
        caps_match == regex_finds(CAPSLOCK_PATTERN@, e.name@),
        num_match == regex_finds(NUMLOCK_PATTERN@, e.name@),
    ensures
        r == led_kind(*e),
{
    let has_file = !matches!(e.brightness, BrightnessFile::Missing);
    if has_file && caps_match {
        LedKind::Capslock
    } else if has_file && num_match {
        LedKind::Numlock
    } else {
        LedKind::Other
    }
}

/// Reads the brightness of one entry.
fn entry_brightness(b: &BrightnessFile) -> (r: Result<u32, LedError>)
    ensures
        match brightness_value(*b) {
            Ok(v) => r == Ok::<u32, LedError>(v as u32),
            Err(x) => r == Err::<u32, LedError>(x),
        },
{
    match b {
        BrightnessFile::Text(t) => match parse_bounded(trim_text(t.as_str()), 0xFFFF_FFFF) {
            Some(v) => Ok(v as u32),
            None => Err(LedError::NotANumber),
        },
        _ => Err(LedError::Unreadable),
    }
}

/// Whether caps lock and num lock are on, from the entries of the LED directory.
pub fn key_states(entries: &Vec<LedEntry>) -> (r: Result<(bool, bool), LedError>)
    ensures
        r == key_states_of(entries@),
{
    let names = entry_names(entries);
    let caps_matches = regex_match_each(CAPSLOCK_PATTERN, &names);
    let num_matches = regex_match_each(NUMLOCK_PATTERN, &names);
    let mut caps_on = false;
    let mut num_on = false;
    let ghost mut c: nat = 0;
    let ghost mut n: nat = 0;
    let mut k: usize = 0;
    while k < entries.len()
        invariant
            k <= entries.len(),
            caps_matches@.len() == entries@.len(),
            num_matches@.len() == entries@.len(),
            forall|i: int|
                0 <= i < entries@.len() ==> caps_matches@[i] == regex_finds(
                    CAPSLOCK_PATTERN@,
                    (#[trigger] entries@[i]).name@,
                ) && num_matches@[i] == regex_finds(NUMLOCK_PATTERN@, entries@[i].name@),
            led_sums(entries@.subrange(0, k as int)) == Ok::<(nat, nat), LedError>((c, n)),
            caps_on == (c > 0),
            num_on == (n > 0),
        decreases entries.len() - k,
    {
        let e = &entries[k];
        let ghost pre = entries@.subrange(0, k as int);
        let ghost next = entries@.subrange(0, k + 1);
        assert(next.drop_last() =~= pre);
        assert(next.last() == *e);
        match entry_kind(e, caps_matches[k], num_matches[k]) {
            LedKind::Other => {},
            LedKind::Capslock => match entry_brightness(&e.brightness) {
                Ok(v) => {
                    caps_on = caps_on || v > 0;
                    proof {
                        c = c + v as nat;
                    }
                },
                Err(x) => {
                    assert(led_sums(next) == Err::<(nat, nat), LedError>(x));
                    proof { lemma_error_sticks(entries@, k + 1); }
                    return Err(x);
                },
            },
            LedKind::Numlock => match entry_brightness(&e.brightness) {
                Ok(v) => {
                    num_on = num_on || v > 0;
                    proof {
                        n = n + v as nat;
                    }
                },
                Err(x) => {
                    assert(led_sums(next) == Err::<(nat, nat), LedError>(x));
                    proof { lemma_error_sticks(entries@, k + 1); }
                    return Err(x);
                },
            },
        }
        k = k + 1;
    }
    assert(entries@.subrange(0, entries.len() as int) =~= entries@);
    Ok((caps_on, num_on))
}

/// Once a prefix of the entries fails, the whole sequence fails with the same error.
proof fn lemma_error_sticks(es: Seq<LedEntry>, k: int)
    requires
        0 <= k <= es.len(),
        led_sums(es.subrange(0, k)) is Err,
    ensures
        led_sums(es) == led_sums(es.subrange(0, k)),
    decreases es.len() - k,
{
    if k == es.len() {
        assert(es.subrange(0, k) =~= es);
    } else {
        let next = es.subrange(0, k + 1);
        assert(next.drop_last() =~= es.subrange(0, k));
        lemma_error_sticks(es, k + 1);
    }
}

} // verus!
