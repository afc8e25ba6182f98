//! The regular expressions that e-mail addresses and user names must match.
use vstd::prelude::*;

verus! {

/// `regex::Regex`, opaque.
#[verifier::external_type_specification]
#[verifier::external_body]
pub struct ExRegex(regex::Regex);

/// `regex::Error`, opaque.
#[verifier::external_type_specification]
#[verifier::external_body]
pub struct ExRegexError(regex::Error);

/// Pattern an e-mail address must match.
pub const EMAIL_PATTERN: &'static str = r"(^[a-zA-Z0-9_.+-]+@[a-zA-Z0-9-]+\.[a-zA-Z0-9-.]+$)";

/// Pattern a user name must match.
pub const USERNAME_PATTERN: &'static str = r"^[a-zA-Z0-9_.-]{3,32}$";

/// Whether the regular expression `pattern` matches somewhere in `haystack`,
/// with the semantics of the `regex` crate.
pub uninterp spec fn regex_matches(pattern: Seq<char>, haystack: Seq<char>) -> bool;

/// Whether `pattern` is a regular expression the `regex` crate accepts:
/// valid syntax, and within the crate's default size limits.
pub uninterp spec fn regex_compiles(pattern: Seq<char>) -> bool;

/// A compiled regular expression; its view is the pattern it was compiled from.
pub struct TextPattern {
    compiled: regex::Regex,
    source: Ghost<Seq<char>>,
}

impl View for TextPattern {
    type V = Seq<char>;

    closed spec fn view(&self) -> Seq<char> {
        self.source@
    }
}

/// `regex::Regex::new`: compiles `source`. It succeeds exactly when the
/// name says the pattern compiles, and the returned pattern was compiled
/// from `source`.
#[verifier::external_body]
fn compile_pattern(source: &str) -> (r: Result<TextPattern, regex::Error>)
    ensures
        r is Ok <==> regex_compiles(source@),
        r matches Ok(p) ==> p@ == source@,
{
    match regex::Regex::new(source) {
        Ok(compiled) => Ok(TextPattern { compiled, source: Ghost(source@) }),
        Err(e) => Err(e),
    }
}

/// `regex::Regex::is_match`: whether the pattern matches anywhere in `haystack`.
#[verifier::external_body]
pub(crate) fn pattern_is_match(pattern: &TextPattern, haystack: &str) -> (r: bool)
    ensures
        r == regex_matches(pattern@, haystack@),
{
    pattern.compiled.is_match(haystack)
}

/// The two patterns the request handlers check input against.
pub struct Patterns {
    pub email: TextPattern,
    pub username: TextPattern,
}

impl Patterns {
    /// Both patterns were compiled from `EMAIL_PATTERN` and `USERNAME_PATTERN`.
    pub open spec fn wf(&self) -> bool {
        &&& self.email@ == EMAIL_PATTERN@
        &&& self.username@ == USERNAME_PATTERN@
    }

    /// Compiles both patterns; `None` when either fails to compile.
    pub fn compile() -> (r: Option<Patterns>)
        ensures
            r is Some <==> regex_compiles(EMAIL_PATTERN@) && regex_compiles(USERNAME_PATTERN@),
            r matches Some(p) ==> p.wf(),
    {
        let email = match compile_pattern(EMAIL_PATTERN) {
            Ok(p) => p,
            Err(_) => return None,
        };
        let username = match compile_pattern(USERNAME_PATTERN) {
            Ok(p) => p,
            Err(_) => return None,
        };
        Some(Patterns { email, username })
    }
}

} // verus!
