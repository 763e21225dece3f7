//! The launcher's logic: which mode a query goes to, the web-search mode, and
//! the selection among the results shown.
use vstd::prelude::*;
use vstd::string::*;
use vstd::utf8::encode_utf8;
use crate::text::{trim_text, trimmed};

verus! {

/// Start of the address of a web search.
pub const SEARCH_URL_PREFIX: &'static str = "https://duck.com?q=";

/// Whether a byte is an ASCII letter or digit.
pub open spec fn is_ascii_alphanumeric(b: u8) -> bool {
    (48 <= b <= 57) || (65 <= b <= 90) || (97 <= b <= 122)
}

/// Upper-case hexadecimal digit of a value below 16.
pub open spec fn hex_digit(n: nat) -> char {
    if n < 10 {
        ((48 + n) as u8) as char
    } else {
        ((55 + n) as u8) as char
    }
}

/// One byte, percent-encoded unless it is an ASCII letter or digit.
pub open spec fn encode_byte(b: u8) -> Seq<char> {
    if is_ascii_alphanumeric(b) {
        seq![b as char]
    } else {
        seq!['%', hex_digit(b as nat / 16), hex_digit(b as nat % 16)]
    }
}

/// Bytes, each percent-encoded unless it is an ASCII letter or digit.
pub open spec fn percent_encoded(bs: Seq<u8>) -> Seq<char>
    decreases bs.len(),
{
    if bs.len() == 0 {
        seq![]
    } else {
        percent_encoded(bs.drop_last()) + encode_byte(bs.last())
    }
}

/// Relies on `percent_encoding::utf8_percent_encode` with `NON_ALPHANUMERIC`: each
/// byte of the text's UTF-8 form other than an ASCII letter or digit becomes `%`
/// and two upper-case hexadecimal digits; letters and digits stay.
#[verifier::external_body]
fn encode_query(s: &str) -> (r: String)
    ensures
        r@ == percent_encoded(encode_utf8(s@)),
{
    percent_encoding::utf8_percent_encode(s, percent_encoding::NON_ALPHANUMERIC).to_string()
}

/// The web-search mode of the launcher.
#[derive(Clone, Copy, Debug, Default)]
pub struct SearchMode {}

impl SearchMode {
    /// The results for a query: the query itself, alone.
    pub fn search(&self, query: &str) -> (r: Vec<String>)
        ensures
            r@.len() == 1,
            r@[0]@ == query@,
    {
        let mut r: Vec<String> = Vec::new();
        r.push(String::from_str(query));
        r
    }

    /// The address that accepting a query opens: the search address followed by
    /// the query, percent-encoded.
    pub fn search_url(&self, query: &str) -> (r: String)
        ensures
            r@ == SEARCH_URL_PREFIX@ + percent_encoded(encode_utf8(query@)),
    {
        let encoded = encode_query(query);
        let mut url = String::from_str(SEARCH_URL_PREFIX);
        url.append(encoded.as_str());
        url
    }
}

/// The mode that handles a query.
#[derive(Clone, Copy, Debug, PartialEq, Eq, Structural)]
pub enum ModeKind {
    /// Launch an application (no prefix).
    Launch,
    /// Evaluate an expression (prefix `=`).
    Math,
    /// Search the web (prefix `?`).
    Search,
}

/// The mode that a query goes to, and the query that mode sees: the query is
/// trimmed, then a leading `=` or `?` picks a mode and is removed.
pub open spec fn picked_mode(query: Seq<char>) -> (ModeKind, Seq<char>) {
    let t = trimmed(query);
    if t.len() > 0 && t[0] == '=' {
        (ModeKind::Math, t.drop_first())
    } else if t.len() > 0 && t[0] == '?' {
        (ModeKind::Search, t.drop_first())
    } else {
        (ModeKind::Launch, t)
    }
}

/// Picks the mode for a query by its first character after trimming.
pub fn pick_mode(query: &str) -> (r: (ModeKind, String))
    ensures
        r.0 == picked_mode(query@).0,
        r.1@ == picked_mode(query@).1,
{
    let t = trim_text(query);
    let n = t.unicode_len();
    if n > 0 {
        let c = t.get_char(0);
        if c == '=' || c == '?' {
            let rest = t.substring_char(1, n);
            assert(rest@ =~= t@.drop_first());
            let kind = if c == '=' { ModeKind::Math } else { ModeKind::Search };
            return (kind, String::from_str(rest));
        }
    }
    (ModeKind::Launch, String::from_str(t))
}

/// What a shown result is told.
#[derive(Clone, Copy, Debug, PartialEq, Eq, Structural)]
pub enum LauncherResultInput {
    /// It becomes the selected result.
    ResultActive,
    /// It stops being the selected result.
    ResultInactive,
}

/// One shown result.
#[derive(Clone, Debug)]
pub struct LauncherResult {
    /// What the user sees.
    pub label: String,
    /// Whether it is the selected result.
    pub active: bool,
}

impl LauncherResult {
    /// A result with the given label, not selected.
    pub fn init_model(label: String) -> (r: LauncherResult)
        ensures
            r.label == label,
            !r.active,
    {
        LauncherResult { label, active: false }
    }

    /// Takes a message.
    pub fn update(&mut self, msg: LauncherResultInput)
        ensures
            final(self).label == old(self).label,
            final(self).active == (msg == LauncherResultInput::ResultActive),
    {
        match msg {
            LauncherResultInput::ResultActive => {
                self.active = true;
            },
            LauncherResultInput::ResultInactive => {
                self.active = false;
            },
        }
    }
}

/// The results shown and which one is selected.
pub struct LauncherResults {
    results: Vec<LauncherResult>,
    selected_index: usize,
}

impl LauncherResults {
    /// The results, in order.
    pub closed spec fn results_spec(self) -> Seq<LauncherResult> {
        self.results@
    }

    /// Position of the selected result.
    pub closed spec fn selected_spec(self) -> int {
        self.selected_index as int
    }

    /// The labels, in order.
    pub open spec fn labels(self) -> Seq<Seq<char>> {
        self.results_spec().map_values(|r: LauncherResult| r.label@)
    }

    /// The selection lies among the results, and exactly the selected result is
    /// marked active; with no results the selection is the first place.
    pub open spec fn wf(self) -> bool {
        &&& (self.results_spec().len() == 0 ==> self.selected_spec() == 0)
        &&& (self.results_spec().len() > 0 ==> 0 <= self.selected_spec()
            < self.results_spec().len())
        &&& forall|i: int|
            0 <= i < self.results_spec().len() ==> (#[trigger] self.results_spec()[i]).active == (i
                == self.selected_spec())
    }

    /// No results.
    pub fn new() -> (r: LauncherResults)
        ensures
            r.wf(),
            r.results_spec().len() == 0,
    {
        LauncherResults { results: Vec::new(), selected_index: 0 }
    }

    /// Shows `labels` in place of the current results and selects the first.
    pub fn replace(&mut self, labels: Vec<String>)
        ensures
            final(self).wf(),
            final(self).results_spec().len() == labels@.len(),
            forall|i: int|
                0 <= i < labels@.len() ==> (#[trigger] final(self).results_spec()[i]).label
                    == labels@[i],
            final(self).selected_spec() == 0,
    {
        let mut results: Vec<LauncherResult> = Vec::new();
        let mut k: usize = 0;
        while k < labels.len()
            invariant
                k <= labels@.len(),
                results@.len() == k,
                forall|i: int|
                    0 <= i < k ==> (#[trigger] results@[i]).label == labels@[i] && results@[i].active
                        == (i == 0),
            decreases labels.len() - k,
        {
            let mut r = LauncherResult::init_model(labels[k].clone());
            if k == 0 {
                r.update(LauncherResultInput::ResultActive);
            }
            results.push(r);
            k = k + 1;
        }
        self.results = results;
        self.selected_index = 0;
    }

    /// Sends `msg` to the selected result, if there is one.
    fn send_selected(&mut self, msg: LauncherResultInput)
        requires
            old(self).results_spec().len() == 0 || old(self).selected_spec() < old(self).results_spec().len(),
        ensures
            final(self).selected_spec() == old(self).selected_spec(),
            final(self).results_spec().len() == old(self).results_spec().len(),
            forall|i: int|
                0 <= i < old(self).results_spec().len() && i != old(self).selected_spec()
                    ==> #[trigger] final(self).results_spec()[i] == old(self).results_spec()[i],
            old(self).results_spec().len() > 0 ==> final(self).results_spec()[old(self).selected_spec()].active == (msg == LauncherResultInput::ResultActive),
            forall|i: int|
                0 <= i < old(self).results_spec().len() ==> (#[trigger] final(self).results_spec()[i]).label == old(self).results_spec()[i].label,
    {
        if self.results.len() == 0 {
            return;
        }
        let i = self.selected_index;
        let mut r = self.results.remove(i);
        r.update(msg);
        self.results.insert(i, r);
        assert forall|j: int|
            0 <= j < old(self).results_spec().len() && j != i implies #[trigger] self.results_spec()[j]
            == old(self).results_spec()[j] by {}
    }

    /// Selects the next result, after the last the first, and marks it active.
    pub fn increase_and_set(&mut self)
        requires
            old(self).wf(),
        ensures
            final(self).wf(),
            final(self).labels() == old(self).labels(),
            old(self).results_spec().len() > 0 ==> final(self).selected_spec() == (old(self).selected_spec() + 1) % old(self).results_spec().len() as int,
            old(self).results_spec().len() == 0 ==> final(self).selected_spec() == 0,
    {
        self.send_selected(LauncherResultInput::ResultInactive);
        let n = self.results.len();
        if n > 0 {
            let s = self.selected_index;
            self.selected_index = if s + 1 >= n { 0 } else { s + 1 };
            assert(self.selected_index as int == (s as int + 1) % (n as int)) by (nonlinear_arith)
                requires
                    s < n,
                    self.selected_index as int == if s + 1 >= n { 0 } else { s + 1 },
            {
            }
        }
        self.send_selected(LauncherResultInput::ResultActive);
        assert(self.labels() =~= old(self).labels());
    }

    /// Selects the previous result, before the first the last, and marks it active.
    pub fn decrease_and_set(&mut self)
        requires
            old(self).wf(),
        ensures
            final(self).wf(),
            final(self).labels() == old(self).labels(),
            old(self).results_spec().len() > 0 ==> final(self).selected_spec() == (if old(self).selected_spec() == 0 {
                old(self).results_spec().len() - 1
            } else {
                old(self).selected_spec() - 1
            }),
            old(self).results_spec().len() == 0 ==> final(self).selected_spec() == 0,
    {
        self.send_selected(LauncherResultInput::ResultInactive);
        let n = self.results.len();
        if n > 0 {
            self.selected_index = if self.selected_index == 0 { n - 1 } else { self.selected_index - 1 };
        }
        self.send_selected(LauncherResultInput::ResultActive);
        assert(self.labels() =~= old(self).labels());
    }

    /// Selects the first result and marks it active.
    pub fn reset_and_set(&mut self)
        requires
            old(self).wf(),
        ensures
            final(self).wf(),
            final(self).labels() == old(self).labels(),
            final(self).selected_spec() == 0,
    {
        self.send_selected(LauncherResultInput::ResultInactive);
        self.selected_index = 0;
        self.send_selected(LauncherResultInput::ResultActive);
        assert(self.labels() =~= old(self).labels());
    }

    /// Position of the selected result.
    pub fn get_selected_index(&self) -> (r: usize)
        ensures
            r == self.selected_spec(),
    {
        self.selected_index
    }

    /// The results, in order.
    pub fn results(&self) -> (r: &Vec<LauncherResult>)
        ensures
            r@ == self.results_spec(),
    {
        &self.results
    }
}

} // verus!
