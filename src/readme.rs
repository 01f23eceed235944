use vstd::prelude::*;
use vstd::string::StringExecFns;
use vstd::string::StrSliceExecFns;
use crate::error::BundleError;
use chrono::Datelike;

verus! {

/// The text of the README template filled in with `params`, as `text_template` does it.
pub uninterp spec fn filled_in(template: Seq<char>, params: Seq<(Seq<char>, Seq<char>)>) -> Seq<
    char,
>;

pub open spec fn param_views(params: Seq<(String, String)>) -> Seq<(Seq<char>, Seq<char>)> {
    params.map_values(|p: (String, String)| (p.0@, p.1@))
}

/// A whitespace character (as `char::is_whitespace` has it) outside ASCII.
pub open spec fn wide_whitespace(c: char) -> bool {
    c == '\u{85}' || c == '\u{a0}' || c == '\u{1680}' || ('\u{2000}' <= c && c <= '\u{200a}')
        || c == '\u{2028}' || c == '\u{2029}' || c == '\u{202f}' || c == '\u{205f}'
        || c == '\u{3000}'
}

/// The template engine can read `t`: it holds no whitespace outside ASCII,
/// whose byte length the engine's placeholder trimming would miscount.
pub open spec fn template_supported(t: Seq<char>) -> bool {
    forall|i: int| 0 <= i < t.len() ==> !wide_whitespace(#[trigger] t[i])
}

fn is_wide_whitespace(c: char) -> (r: bool)
    ensures
        r == wide_whitespace(c),
{
    c == '\u{85}' || c == '\u{a0}' || c == '\u{1680}' || ('\u{2000}' <= c && c <= '\u{200a}')
        || c == '\u{2028}' || c == '\u{2029}' || c == '\u{202f}' || c == '\u{205f}'
        || c == '\u{3000}'
}

/// Whether the template engine can read `t`.
pub fn check_template(t: &str) -> (r: bool)
    ensures
        r == template_supported(t@),
{
    let n = t.unicode_len();
    let mut i: usize = 0;
    while i < n
        invariant
            n == t@.len(),
            i <= n,
            forall|j: int| 0 <= j < i ==> !wide_whitespace(#[trigger] t@[j]),
        decreases n - i,
    {
        if is_wide_whitespace(t.get_char(i)) {
            return false;
        }
        i = i + 1;
    }
    true
}

/// Relies on `text_template::Template::from` and `Template::fill_in`: the text
/// depends on the template and the parameters alone. `Template::from` slices a
/// placeholder's name by a count of characters taken as bytes, so whitespace
/// outside ASCII is left out.
#[verifier::external_body]
fn render_template(template: &str, params: &Vec<(String, String)>) -> (r: String)
    requires
        template_supported(template@),
    ensures
        r@ == filled_in(template@, param_views(params@)),
{
    let parsed = text_template::Template::from(template);
    let table: std::collections::HashMap<&str, &str> = params
        .iter()
        .map(|p| (p.0.as_str(), p.1.as_str()))
        .collect();
    parsed.fill_in(&table).to_string()
}

/// A calendar day: the year, and the month and the day counted from zero.
#[derive(Debug, Clone, Copy, PartialEq, Eq, Structural)]
pub struct CalendarDay {
    pub year: i32,
    pub month0: u32,
    pub day0: u32,
}

impl CalendarDay {
    pub open spec fn wf(&self) -> bool {
        self.month0 < 12 && self.day0 < 31
    }
}

/// Relies on `chrono::Utc::now` and `Datelike::{year, month0, day0}`: today's
/// date in UTC; `month0` lies in 0..=11 and `day0` in 0..=30.
#[verifier::external_body]
fn today_utc() -> (r: CalendarDay)
    ensures
        r.wf(),
{
    let now = chrono::Utc::now();
    CalendarDay { year: now.year(), month0: now.month0(), day0: now.day0() }
}

pub open spec fn digit_char(d: nat) -> char {
    if d == 0 { '0' }
    else if d == 1 { '1' }
    else if d == 2 { '2' }
    else if d == 3 { '3' }
    else if d == 4 { '4' }
    else if d == 5 { '5' }
    else if d == 6 { '6' }
    else if d == 7 { '7' }
    else if d == 8 { '8' }
    else { '9' }
}

/// The decimal digits of `n`, without leading zeros.
pub open spec fn decimal(n: nat) -> Seq<char>
    decreases n,
{
    if n < 10 {
        seq![digit_char(n)]
    } else {
        decimal(n / 10) + seq![digit_char(n % 10)]
    }
}

/// The decimal text of a signed number.
pub open spec fn signed_decimal(n: int) -> Seq<char> {
    if n < 0 {
        seq!['-'] + decimal((-n) as nat)
    } else {
        decimal(n as nat)
    }
}

fn digit_text(d: u32) -> (r: &'static str)
    requires
        d < 10,
    ensures
        r@ == seq![digit_char(d as nat)],
{
    proof {
        reveal_strlit("0");
        reveal_strlit("1");
        reveal_strlit("2");
        reveal_strlit("3");
        reveal_strlit("4");
        reveal_strlit("5");
        reveal_strlit("6");
        reveal_strlit("7");
        reveal_strlit("8");
        reveal_strlit("9");
    }
    if d == 0 { "0" }
    else if d == 1 { "1" }
    else if d == 2 { "2" }
    else if d == 3 { "3" }
    else if d == 4 { "4" }
    else if d == 5 { "5" }
    else if d == 6 { "6" }
    else if d == 7 { "7" }
    else if d == 8 { "8" }
    else { "9" }
}

/// The decimal text of `n`.
pub fn decimal_text(n: u32) -> (r: String)
    ensures
        r@ == decimal(n as nat),
    decreases n,
{
    if n < 10 {
        <String as StringExecFns>::from_str(digit_text(n))
    } else {
        let mut s = decimal_text(n / 10);
        s.append(digit_text(n % 10));
        s
    }
}

/// The decimal text of `n`, with a leading `-` when negative.
pub fn signed_decimal_text(n: i32) -> (r: String)
    ensures
        r@ == signed_decimal(n as int),
{
    if n < 0 {
        let m: u32 = (-(n as i64)) as u32;
        let digits = decimal_text(m);
        proof {
            reveal_strlit("-");
        }
        let r = <String as StringExecFns>::from_str("-").concat(digits.as_str());
        r
    } else {
        decimal_text(n as u32)
    }
}

/// The parameters that the README template is filled in with.
pub open spec fn readme_params(version: Seq<char>, day: CalendarDay) -> Seq<
    (Seq<char>, Seq<char>),
> {
    seq![
        ("RELEASE"@, version),
        ("YEAR"@, signed_decimal(day.year as int)),
        ("MONTH"@, decimal(day.month0 as nat)),
        ("DAY"@, decimal(day.day0 as nat)),
    ]
}

/// Builds the README template's parameters for a release on a given day.
pub fn readme_parameters(version: &str, day: CalendarDay) -> (r: Vec<(String, String)>)
    ensures
        param_views(r@) == readme_params(version@, day),
{
    let mut r: Vec<(String, String)> = Vec::new();
    r.push((<String as StringExecFns>::from_str("RELEASE"), <String as StringExecFns>::from_str(version)));
    r.push((<String as StringExecFns>::from_str("YEAR"), signed_decimal_text(day.year)));
    r.push((<String as StringExecFns>::from_str("MONTH"), decimal_text(day.month0)));
    r.push((<String as StringExecFns>::from_str("DAY"), decimal_text(day.day0)));
    assert(param_views(r@) =~= readme_params(version@, day));
    r
}

/// The README for a release: `template` filled in with the version and the
/// date; a template that the engine cannot read is refused.
pub fn readme_text(template: &str, version: &str, day: CalendarDay) -> (r: Result<
    String,
    BundleError,
>)
    ensures
        r is Ok <==> template_supported(template@),
        r matches Ok(t) ==> t@ == filled_in(template@, readme_params(version@, day)),
        r matches Err(e) ==> e == BundleError::UnsupportedTemplate,
{
    if !check_template(template) {
        return Err(BundleError::UnsupportedTemplate);
    }
    let params = readme_parameters(version, day);
    Ok(render_template(template, &params))
}

/// The README for a release built today (UTC).
pub fn readme_for_today(template: &str, version: &str) -> (r: Result<String, BundleError>)
    ensures
        r is Ok <==> template_supported(template@),
        r matches Ok(t) ==> exists|day: CalendarDay| day.wf() && t@ == filled_in(
            template@,
            readme_params(version@, day),
        ),
        r matches Err(e) ==> e == BundleError::UnsupportedTemplate,
{
    let day = today_utc();
    readme_text(template, version, day)
}

} // verus!
