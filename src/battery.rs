//! Battery reader: turns the text of a power supply's `capacity` and `status`
//! files into a charge level and a charging state.
use vstd::prelude::*;
use crate::percentage::Percentage;
use crate::text::{
    all_white_space, bounded_number, decimal_number, is_white_space, lemma_trimmed_padded, parse_bounded,
    text_equals, trim_text, trimmed,
};

verus! {

/// State of a battery.
#[derive(Clone, Copy, Debug, PartialEq, Eq, Structural)]
pub enum BatteryStatus {
    /// Losing charge.
    Discharging,
    /// Being charged.
    Charging,
    /// Any other state.
    Unknown,
}

/// The status that a status text names: exactly `Charging` or `Discharging`, else unknown.
pub open spec fn status_of(s: Seq<char>) -> BatteryStatus {
    if s == "Charging"@ {
        BatteryStatus::Charging
    } else if s == "Discharging"@ {
        BatteryStatus::Discharging
    } else {
        BatteryStatus::Unknown
    }
}

impl Default for BatteryStatus {
    fn default() -> (r: BatteryStatus)
        ensures
            r == BatteryStatus::Unknown,
    {
        BatteryStatus::Unknown
    }
}

impl<'a> From<&'a str> for BatteryStatus {
    fn from(value: &'a str) -> (r: BatteryStatus) {
        if text_equals(value, "Charging") {
            BatteryStatus::Charging
        } else if text_equals(value, "Discharging") {
            BatteryStatus::Discharging
        } else {
            BatteryStatus::Unknown
        }
    }
}

impl<'a> vstd::std_specs::convert::FromSpecImpl<&'a str> for BatteryStatus {
    open spec fn obeys_from_spec() -> bool {
        true
    }

    open spec fn from_spec(v: &'a str) -> BatteryStatus {
        status_of(v@)
    }
}

/// Why a battery reading failed.
#[derive(Clone, Copy, Debug, PartialEq, Eq, Structural)]
pub enum BatteryError {
    /// The `capacity` file could not be read.
    CapacityUnreadable,
    /// The `capacity` file does not hold a number from 0 to 255.
    CapacityNotANumber,
    /// The `status` file could not be read.
    StatusUnreadable,
}

/// Text of a battery's two files; `None` where a file could not be read.
#[derive(Clone, Debug)]
pub struct BatteryFiles {
    pub capacity: Option<String>,
    pub status: Option<String>,
}

/// The outcome of reading a battery: the charge in whole percent and the status.
pub open spec fn battery_outcome(files: BatteryFiles) -> Result<(nat, BatteryStatus), BatteryError> {
    match files.capacity {
        None => Err(BatteryError::CapacityUnreadable),
        Some(c) => match bounded_number(trimmed(c@), 255) {
            None => Err(BatteryError::CapacityNotANumber),
            Some(v) => match files.status {
                None => Err(BatteryError::StatusUnreadable),
                Some(s) => Ok((v, status_of(trimmed(s@)))),
            },
        },
    }
}

/// Whether `r` is the result that `battery_outcome` describes.
pub open spec fn is_battery_result(
    r: Result<(Percentage, BatteryStatus), BatteryError>,
    files: BatteryFiles,
) -> bool {
    match r {
        Ok((p, st)) => {
            &&& p.wf()
            &&& p.denom_spec() == 100
            &&& p.numer_spec() >= 0
            &&& battery_outcome(files) == Ok::<(nat, BatteryStatus), BatteryError>(
                (p.numer_spec() as nat, st),
            )
        },
        Err(e) => battery_outcome(files) == Err::<(nat, BatteryStatus), BatteryError>(e),
    }
}

/// Reads the charge (a whole percent, surrounding white space ignored) and the
/// status (trimmed, then mapped by `BatteryStatus::from`).
pub fn battery_reading(files: &BatteryFiles) -> (r: Result<(Percentage, BatteryStatus), BatteryError>)
    ensures
        is_battery_result(r, *files),
{
    let capacity = match &files.capacity {
        None => {
            return Err(BatteryError::CapacityUnreadable);
        },
        Some(c) => c,
    };
    let level = match parse_bounded(trim_text(capacity.as_str()), 255) {
        None => {
            return Err(BatteryError::CapacityNotANumber);
        },
        Some(v) => v as u8,
    };
    let status = match &files.status {
        None => {
            return Err(BatteryError::StatusUnreadable);
        },
        Some(s) => s,
    };
    let st = BatteryStatus::from(trim_text(status.as_str()));
    Ok((Percentage::from_percent(level), st))
}

/// Every status text other than exactly `Charging` or `Discharging` names the
/// unknown status; the comparison is case-sensitive and ignores nothing.
pub proof fn lemma_status_total(s: Seq<char>)
    ensures
        (status_of(s) == BatteryStatus::Unknown) <==> (s != "Charging"@ && s != "Discharging"@),
        (status_of(s) == BatteryStatus::Charging) <==> s == "Charging"@,
        (status_of(s) == BatteryStatus::Discharging) <==> s == "Discharging"@,
{
    reveal_strlit("Charging");
    reveal_strlit("Discharging");
    assert("Charging"@.len() != "Discharging"@.len());
}

/// White space around the texts of the two files changes nothing: a capacity
/// file that holds a number up to 255 and a status file that holds a word, each
/// with any white space around it, read as that number and the word's status.
pub proof fn lemma_padded_files(
    files: BatteryFiles,
    cap_pre: Seq<char>,
    cap: Seq<char>,
    cap_post: Seq<char>,
    st_pre: Seq<char>,
    st: Seq<char>,
    st_post: Seq<char>,
)
    requires
        files.capacity matches Some(c) && c@ == cap_pre + cap + cap_post,
        files.status matches Some(s) && s@ == st_pre + st + st_post,
        all_white_space(cap_pre),
        all_white_space(cap_post),
        all_white_space(st_pre),
        all_white_space(st_post),
        cap.len() > 0,
        !is_white_space(cap[0]),
        !is_white_space(cap.last()),
        st.len() == 0 || (!is_white_space(st[0]) && !is_white_space(st.last())),
        decimal_number(cap) matches Some(v) && v <= 255,
    ensures
        battery_outcome(files) == Ok::<(nat, BatteryStatus), BatteryError>(
            (decimal_number(cap)->Some_0, status_of(st)),
        ),
{
    lemma_trimmed_padded(cap_pre, cap, cap_post);
    lemma_trimmed_padded(st_pre, st, st_post);
}

} // verus!
