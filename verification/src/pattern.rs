use vstd::prelude::*;

verus! {

/// `fancy_regex::Regex` holds a compiled pattern; the pipeline treats the
/// value itself as opaque and speaks only of the source text it was
/// compiled from.
#[verifier::external_type_specification]
#[verifier::external_body]
pub struct ExRegex(fancy_regex::Regex);

/// `fancy_regex::Error` reports a pattern that does not compile or a
/// match attempt that the engine gives up on (such as a backtracking
/// limit); either is fatal for the run.
#[verifier::external_type_specification]
#[verifier::external_body]
pub struct ExRegexError(fancy_regex::Error);

/// The verdict of the predicate matcher: whether the pattern given by
/// `pattern` matches somewhere in `text`. The matcher decides; this name
/// only records that the verdict is a function of the two texts alone.
pub uninterp spec fn regex_matches(pattern: Seq<char>, text: Seq<char>) -> bool;

/// A compiled fingerprint pattern together with the text it was compiled
/// from. The view of a `Pattern` is that source text.
pub struct Pattern {
    regex: fancy_regex::Regex,
    source: String,
}

impl View for Pattern {
    type V = Seq<char>;

    closed spec fn view(&self) -> Seq<char> {
        self.source@
    }
}

impl Pattern {
    /// Relies on `fancy_regex::Regex::new`: compiles `source`, failing
    /// exactly when `source` is not a valid pattern. The compiled value is
    /// kept beside its source text.
    #[verifier::external_body]
    pub fn new(source: &str) -> (r: Result<Pattern, fancy_regex::Error>)
        ensures
            r matches Ok(p) ==> p@ == source@,
    {
        match fancy_regex::Regex::new(source) {
            Ok(regex) => Ok(Pattern { regex, source: String::from(source) }),
            Err(e) => Err(e),
        }
    }

    /// Relies on `fancy_regex::Regex::is_match`: the verdict depends only
    /// on the pattern's source text and on `text`, and an `Err` comes only
    /// from the engine giving up at run time (never from a plain
    /// non-match).
    #[verifier::external_body]
    pub fn is_match(&self, text: &str) -> (r: Result<bool, fancy_regex::Error>)
        ensures
            r matches Ok(b) ==> b == regex_matches(self@, text@),
    {
        self.regex.is_match(text)
    }

    /// The text this pattern was compiled from.
    pub fn source_str(&self) -> (r: &str)
        ensures
            r@ == self@,
    {
        self.source.as_str()
    }
}

} // verus!
