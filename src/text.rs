//! Small verified helpers on text: decimal rendering, comparison and number parsing.
use vstd::prelude::*;
use vstd::string::*;

verus! {

/// The character of a decimal digit.
pub open spec fn digit_char(d: nat) -> char
    recommends
        d < 10,
{
    ((d + 48) as u8) as char
}

/// Decimal digits of a natural number, most significant first, without leading zeros.
pub open spec fn decimal(n: nat) -> Seq<char>
    decreases n,
{
    if n < 10 {
        seq![digit_char(n)]
    } else {
        decimal(n / 10) + seq![digit_char(n % 10)]
    }
}

/// Decimal text of an integer, with a leading `-` when negative.
pub open spec fn int_text(i: int) -> Seq<char> {
    if i < 0 {
        seq!['-'] + decimal((-i) as nat)
    } else {
        decimal(i as nat)
    }
}

/// Relies on `FromIterator<char> for String`: the string holds exactly the given characters.
#[verifier::external_body]
pub(crate) fn string_of_chars(cs: &Vec<char>) -> (r: String)
    ensures
        r@ == cs@,
{
    cs.iter().collect()
}

/// Decimal digits of `n`, as characters.
fn decimal_chars(n: u128) -> (r: Vec<char>)
    ensures
        r@ == decimal(n as nat),
    decreases n,
{
    if n < 10 {
        let c = ((n as u8) + 48) as char;
        vec![c]
    } else {
        let mut r = decimal_chars(n / 10);
        let c = (((n % 10) as u8) + 48) as char;
        r.push(c);
        r
    }
}

/// Renders `i` in decimal, with a leading `-` when negative.
pub fn int_to_text(i: i128) -> (r: String)
    ensures
        r@ == int_text(i as int),
{
    let mut cs: Vec<char> = Vec::new();
    if i < 0 {
        cs.push('-');
        let mag: u128 = if i == i128::MIN { (i128::MAX as u128) + 1 } else { (-i) as u128 };
        let ds = decimal_chars(mag);
        let mut k: usize = 0;
        while k < ds.len()
            invariant
                k <= ds.len(),
                cs@ == seq!['-'] + ds@.subrange(0, k as int),
            decreases ds.len() - k,
        {
            cs.push(ds[k]);
            k = k + 1;
            assert(cs@ =~= seq!['-'] + ds@.subrange(0, k as int));
        }
        assert(ds@.subrange(0, ds@.len() as int) =~= ds@);
    } else {
        cs = decimal_chars(i as u128);
    }
    string_of_chars(&cs)
}

/// Whether two strings hold the same characters.
pub fn text_equals(a: &str, b: &str) -> (r: bool)
    ensures
        r == (a@ == b@),
{
    let n = a.unicode_len();
    if n != b.unicode_len() {
        return false;
    }
    let mut k: usize = 0;
    while k < n
        invariant
            n == a@.len(),
            n == b@.len(),
            k <= n,
            forall|j: int| 0 <= j < k ==> a@[j] == b@[j],
        decreases n - k,
    {
        if a.get_char(k) != b.get_char(k) {
            return false;
        }
        k = k + 1;
    }
    assert(a@ =~= b@);
    true
}

} // verus!

verus! {

/// Whether `c` is an ASCII decimal digit.
pub open spec fn is_digit(c: char) -> bool {
    '0' <= c <= '9'
}

/// Value of a string of decimal digits, most significant first.
pub open spec fn digits_value(ds: Seq<char>) -> nat
    decreases ds.len(),
{
    if ds.len() == 0 {
        0
    } else {
        digits_value(ds.drop_last()) * 10 + ((ds.last() as u32 - 48) as nat)
    }
}

/// What follows an optional leading `+`.
pub open spec fn digit_part(s: Seq<char>) -> Seq<char> {
    if s.len() > 0 && s[0] == '+' {
        s.drop_first()
    } else {
        s
    }
}

/// The number that `s` writes in decimal: an optional `+`, then one or more digits.
pub open spec fn decimal_number(s: Seq<char>) -> Option<nat> {
    let ds = digit_part(s);
    if ds.len() > 0 && (forall|i: int| 0 <= i < ds.len() ==> is_digit(#[trigger] ds[i])) {
        Some(digits_value(ds))
    } else {
        None
    }
}

/// The number that `s` writes in decimal, where it does not exceed `max`.
pub open spec fn bounded_number(s: Seq<char>, max: nat) -> Option<nat> {
    match decimal_number(s) {
        Some(v) => if v <= max { Some(v) } else { None },
        None => None,
    }
}

/// Appending a digit never makes a number of digits smaller.
proof fn lemma_digits_value_grows(ds: Seq<char>, k: int)
    requires
        0 <= k <= ds.len(),
        forall|i: int| 0 <= i < ds.len() ==> is_digit(#[trigger] ds[i]),
    ensures
        digits_value(ds.subrange(0, k)) <= digits_value(ds),
    decreases ds.len() - k,
{
    if k < ds.len() {
        lemma_digits_value_grows(ds, k + 1);
        let p = ds.subrange(0, k + 1);
        assert(p.drop_last() =~= ds.subrange(0, k));
    } else {
        assert(ds.subrange(0, k) =~= ds);
    }
}

/// Parses an unsigned decimal number no larger than `max`, as std's integer parsing
/// does: an optional `+`, then one or more ASCII digits, nothing else.
pub fn parse_bounded(s: &str, max: u64) -> (r: Option<u64>)
    ensures
        r == (match bounded_number(s@, max as nat) {
            Some(v) => Some(v as u64),
            None => None::<u64>,
        }),
{
    let n = s.unicode_len();
    let mut start: usize = 0;
    if n > 0 && s.get_char(0) == '+' {
        start = 1;
    }
    let ghost ds = digit_part(s@);
    assert(ds =~= s@.subrange(start as int, n as int));
    if start == n {
        return None;
    }
    let mut acc: u64 = 0;
    let mut k: usize = start;
    while k < n
        invariant
            n == s@.len(),
            start <= k <= n,
            ds =~= s@.subrange(start as int, n as int),
            ds == digit_part(s@),
            forall|i: int| start <= i < k ==> is_digit(#[trigger] s@[i]),
            acc as nat == digits_value(s@.subrange(start as int, k as int)),
            acc <= max,
        decreases n - k,
    {
        let c = s.get_char(k);
        if !('0' <= c && c <= '9') {
            assert(ds[k - start] == c);
            assert(!is_digit(ds[k - start]));
            return None;
        }
        let d: u64 = (c as u32 - 48) as u64;
        let ghost pre = s@.subrange(start as int, k as int);
        let ghost next = s@.subrange(start as int, k + 1);
        assert(next.drop_last() =~= pre);
        if d > max || acc > (max - d) / 10 {
            // The prefix read so far already exceeds `max`.
            assert(digits_value(next) == acc * 10 + d);
            assert(acc * 10 + d > max) by (nonlinear_arith)
                requires
                    d > max || acc > (max - d) / 10,
                    d <= 9,
            {
            }
            proof {
                if forall|i: int| 0 <= i < ds.len() ==> is_digit(#[trigger] ds[i]) {
                    lemma_digits_value_grows(ds, k + 1 - start);
                    assert(ds.subrange(0, k + 1 - start) =~= next);
                }
            }
            return None;
        }
        acc = acc * 10 + d;
        k = k + 1;
    }
    assert(s@.subrange(start as int, n as int) =~= ds);
    Some(acc)
}

} // verus!

verus! {

/// Whether `c` has Unicode's `White_Space` property, as `char::is_whitespace` says.
pub open spec fn is_white_space(c: char) -> bool {
    ('\u{9}' <= c <= '\u{D}') || c == ' ' || c == '\u{85}' || c == '\u{A0}' || c == '\u{1680}'
        || ('\u{2000}' <= c <= '\u{200A}') || c == '\u{2028}' || c == '\u{2029}' || c == '\u{202F}'
        || c == '\u{205F}' || c == '\u{3000}'
}

/// The text without its leading white space.
pub open spec fn trim_start(s: Seq<char>) -> Seq<char>
    decreases s.len(),
{
    if s.len() > 0 && is_white_space(s[0]) {
        trim_start(s.drop_first())
    } else {
        s
    }
}

/// The text without its trailing white space.
pub open spec fn trim_end(s: Seq<char>) -> Seq<char>
    decreases s.len(),
{
    if s.len() > 0 && is_white_space(s.last()) {
        trim_end(s.drop_last())
    } else {
        s
    }
}

/// The text without leading and trailing white space.
pub open spec fn trimmed(s: Seq<char>) -> Seq<char> {
    trim_end(trim_start(s))
}

/// Relies on `str::trim`: leading and trailing characters with Unicode's
/// `White_Space` property are removed, nothing else.
#[verifier::external_body]
pub(crate) fn trim_text<'a>(s: &'a str) -> (r: &'a str)
    ensures
        r@ == trimmed(s@),
{
    s.trim()
}

/// Every character of `s` is white space.
pub open spec fn all_white_space(s: Seq<char>) -> bool {
    forall|i: int| 0 <= i < s.len() ==> is_white_space(#[trigger] s[i])
}

/// Leading white space in front of a text that starts otherwise is dropped.
proof fn lemma_trim_start_pad(pre: Seq<char>, rest: Seq<char>)
    requires
        all_white_space(pre),
        rest.len() == 0 || !is_white_space(rest[0]),
    ensures
        trim_start(pre + rest) == rest,
    decreases pre.len(),
{
    if pre.len() > 0 {
        assert((pre + rest).drop_first() =~= pre.drop_first() + rest);
        assert(is_white_space(pre[0]));
        lemma_trim_start_pad(pre.drop_first(), rest);
    } else {
        assert(pre + rest =~= rest);
    }
}

/// Trailing white space after a text that ends otherwise is dropped.
proof fn lemma_trim_end_pad(rest: Seq<char>, post: Seq<char>)
    requires
        all_white_space(post),
        rest.len() == 0 || !is_white_space(rest.last()),
    ensures
        trim_end(rest + post) == rest,
    decreases post.len(),
{
    if post.len() > 0 {
        assert((rest + post).drop_last() =~= rest + post.drop_last());
        assert(is_white_space(post.last()));
        lemma_trim_end_pad(rest, post.drop_last());
    } else {
        assert(rest + post =~= rest);
    }
}

/// Trimming a text with white space around it gives the text back, when the
/// text neither starts nor ends with white space.
pub proof fn lemma_trimmed_padded(pre: Seq<char>, core: Seq<char>, post: Seq<char>)
    requires
        all_white_space(pre),
        all_white_space(post),
        core.len() == 0 || (!is_white_space(core[0]) && !is_white_space(core.last())),
    ensures
        trimmed(pre + core + post) == core,
{
    if core.len() == 0 {
        assert(pre + core + post =~= pre + post);
        lemma_trim_start_pad(pre + post, seq![]);
        assert((pre + post) + seq![] =~= pre + post);
        assert(all_white_space(pre + post));
    } else {
        assert(pre + core + post =~= pre + (core + post));
        lemma_trim_start_pad(pre, core + post);
        lemma_trim_end_pad(core, post);
    }
}

} // verus!
