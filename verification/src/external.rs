//! What other crates compute: durations, regular expressions, URLs, Amazon
//! resource names and regions, and comparison without regard to case.
use vstd::prelude::*;
use vstd::string::*;

verus! {

/// A span of time.
#[derive(Clone, Copy, PartialEq, Eq, Structural, Debug)]
pub struct Duration {
    pub secs: u64,
    pub nanos: u32,
}

// Durations.

/// What `parse_duration::parse` makes of a text: seconds and nanoseconds, or its message.
pub uninterp spec fn duration_of(text: Seq<char>) -> Result<(u64, u32), Seq<char>>;

/// Calls `parse_duration::parse`. Claimed: the result is a function of the text.
/// The crate raises ten to the power of an exponent in full, so that a text
/// with a long exponent takes time and memory by the size of the power.
#[verifier::external_body]
pub(crate) fn parse_duration(text: &str) -> (r: Result<Duration, String>)
    ensures
        match r {
            Ok(d) => duration_of(text@) == Ok::<(u64, u32), Seq<char>>((d.secs, d.nanos)),
            Err(e) => duration_of(text@) == Err::<(u64, u32), Seq<char>>(e@),
        },
{
    match parse_duration::parse(text) {
        Ok(d) => Ok(Duration { secs: d.as_secs(), nanos: d.subsec_nanos() }),
        Err(e) => Err(e.to_string()),
    }
}

// Regular expressions.

/// Why `regex::Regex::new` refuses a pattern: its message, or nothing where it compiles.
pub uninterp spec fn regex_refusal(pattern: Seq<char>) -> Option<Seq<char>>;

/// Calls `regex::Regex::new`. Claimed: whether the pattern compiles, and the
/// message where it does not, is a function of the pattern.
#[verifier::external_body]
pub(crate) fn check_regex(pattern: &str) -> (refusal: Option<String>)
    ensures
        match refusal {
            Some(e) => regex_refusal(pattern@) == Some(e@),
            None => regex_refusal(pattern@) is None,
        },
{
    match regex::Regex::new(pattern) {
        Ok(_) => None,
        Err(e) => Some(e.to_string()),
    }
}

// URLs.

/// What `url::Url` makes of a text: its serialization, or the message of the parse error.
pub uninterp spec fn url_of(text: Seq<char>) -> Result<Seq<char>, Seq<char>>;

/// Calls `<url::Url as FromStr>::from_str`. Claimed: the result is a function of the text.
#[verifier::external_body]
pub(crate) fn parse_url(text: &str) -> (r: Result<String, String>)
    ensures
        match r {
            Ok(u) => url_of(text@) == Ok::<Seq<char>, Seq<char>>(u@),
            Err(e) => url_of(text@) == Err::<Seq<char>, Seq<char>>(e@),
        },
{
    match text.parse::<url::Url>() {
        Ok(u) => Ok(u.into()),
        Err(e) => Err(e.to_string()),
    }
}

// Amazon resource names.

/// The parts of an Amazon resource name that are of use here: the region, the
/// resource where it is a path, and the resource as it is shown for debugging.
#[derive(Debug)]
pub struct Arn {
    pub region: Option<String>,
    pub path: Option<String>,
    pub resource: String,
}

/// What `aws_arn::ARN` makes of a text: region, resource path and the resource
/// as shown for debugging; or the error as shown for debugging.
pub uninterp spec fn arn_of(text: Seq<char>) -> Result<
    (Option<Seq<char>>, Option<Seq<char>>, Seq<char>),
    Seq<char>,
>;

/// The contents of an [`Arn`].
pub open spec fn arn_parts(arn: Arn) -> (Option<Seq<char>>, Option<Seq<char>>, Seq<char>) {
    (crate::names::text_option(arn.region), crate::names::text_option(arn.path), arn.resource@)
}

/// Calls `<aws_arn::ARN as FromStr>::from_str`. Claimed: the result is a function of the text.
#[verifier::external_body]
pub(crate) fn parse_arn(text: &str) -> (r: Result<Arn, String>)
    ensures
        match r {
            Ok(a) => arn_of(text@) == Ok::<
                (Option<Seq<char>>, Option<Seq<char>>, Seq<char>),
                Seq<char>,
            >(arn_parts(a)),
            Err(e) => arn_of(text@) == Err::<
                (Option<Seq<char>>, Option<Seq<char>>, Seq<char>),
                Seq<char>,
            >(e@),
        },
{
    match text.parse::<aws_arn::ARN>() {
        Ok(arn) => Ok(Arn {
            region: arn.region,
            resource: format!("{:#?}", arn.resource),
            path: match arn.resource {
                aws_arn::Resource::Path(path) => Some(path),
                aws_arn::Resource::Any => None,
                aws_arn::Resource::Id(_) => None,
                aws_arn::Resource::TypedId { .. } => None,
                aws_arn::Resource::QTypedId { .. } => None,
            },
        }),
        Err(e) => Err(format!("{:#?}", e)),
    }
}

/// What `rusoto_core::Region` makes of a text: the name of a region of AWS, or
/// the message where there is none.
pub uninterp spec fn region_of(text: Seq<char>) -> Result<Seq<char>, Seq<char>>;

/// Calls `<rusoto_core::Region as FromStr>::from_str`. Claimed: the result is a
/// function of the text.
#[verifier::external_body]
pub(crate) fn parse_region(text: &str) -> (r: Result<String, String>)
    ensures
        match r {
            Ok(name) => region_of(text@) == Ok::<Seq<char>, Seq<char>>(name@),
            Err(e) => region_of(text@) == Err::<Seq<char>, Seq<char>>(e@),
        },
{
    match text.parse::<rusoto_core::Region>() {
        Ok(region) => Ok(region.name().to_owned()),
        Err(e) => Err(e.to_string()),
    }
}

// Case.

/// A letter from `A` to `Z` as a small one; any other character as it is.
pub open spec fn small_letter(c: char) -> char {
    if 'A' <= c && c <= 'Z' {
        (c as u32 + 32) as char
    } else {
        c
    }
}

/// Whether two texts differ at most in the case of the letters from `a` to `z`.
pub open spec fn same_but_for_case(a: Seq<char>, b: Seq<char>) -> bool {
    a.len() == b.len() && forall|i: int|
        0 <= i < a.len() ==> small_letter(#[trigger] a[i]) == small_letter(b[i])
}

/// Compares with `unicase::Ascii`. Claimed: texts are equal where they differ at
/// most in the case of ASCII letters.
#[verifier::external_body]
pub(crate) fn eq_ignoring_case(a: &str, b: &str) -> (same: bool)
    ensures
        same == same_but_for_case(a@, b@),
{
    a == unicase::Ascii::new(b)
}

} // verus!
