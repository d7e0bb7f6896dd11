//! The locale tag value: a normalized language identifier, carried as its
//! canonical text together with its language subtag, the two views of it the
//! negotiation logic reads.

use vstd::prelude::*;

verus! {

/// Spec-level image of a locale tag: its canonical text and its language
/// subtag.
pub struct TagView {
    pub full: Seq<char>,
    pub language: Seq<char>,
}

/// A parsed, normalized locale tag such as `en` or `en-US`. Only
/// constructible from text that conforms to the language-tag grammar; the
/// language subtag is what language-only matching compares.
#[derive(Debug)]
pub struct LocaleTag {
    full: String,
    language: String,
}

impl View for LocaleTag {
    type V = TagView;

    closed spec fn view(&self) -> TagView {
        TagView { full: self.full@, language: self.language@ }
    }
}

/// Rejection of text that does not conform to the language-tag grammar.
#[derive(Debug, Clone, Copy, PartialEq, Eq, Structural)]
pub struct ParseError;

/// What the locale-tag parser makes of a text: `None` when the text does not
/// conform to the language-tag grammar, otherwise the pair of the canonical
/// tag text and its language subtag. The outcome is a function of the text
/// alone.
pub uninterp spec fn parsed_tag(s: Seq<char>) -> Option<(Seq<char>, Seq<char>)>;

/// An optional tag carries exactly an optional (canonical text, language
/// subtag) pair.
pub open spec fn tag_opt_matches(r: Option<LocaleTag>, o: Option<(Seq<char>, Seq<char>)>) -> bool {
    match r {
        Some(t) => o == Some((t@.full, t@.language)),
        None => o is None,
    }
}

/// Relies on `unic_langid::LanguageIdentifier`: its `FromStr` parser and its
/// `Display` rendering, plus `Language::as_str` for the language subtag. The
/// parser either rejects the text or yields a normalized identifier; both
/// the canonical text and the language subtag depend on the input text
/// alone, which is what `parsed_tag` names.
#[verifier::external_body]
pub(crate) fn parse_tag(s: &str) -> (r: Option<LocaleTag>)
    ensures
        tag_opt_matches(r, parsed_tag(s@)),
{
    match s.parse::<unic_langid::LanguageIdentifier>() {
        Ok(id) => Some(LocaleTag { full: id.to_string(), language: id.language.as_str().to_string() }),
        Err(_) => None,
    }
}

impl LocaleTag {
    /// Parse a locale tag. Fails with `ParseError` exactly when the text
    /// does not conform to the language-tag grammar; no partial success.
    pub fn parse(text: &str) -> (r: Result<LocaleTag, ParseError>)
        ensures
            match r {
                Ok(t) => parsed_tag(text@) == Some((t@.full, t@.language)),
                Err(_) => parsed_tag(text@) is None,
            },
    {
        match parse_tag(text) {
            Some(t) => Ok(t),
            None => Err(ParseError),
        }
    }

    /// The canonical text of the whole tag, e.g. `en-US`.
    pub fn full(&self) -> (r: &str)
        ensures
            r@ == self@.full,
    {
        self.full.as_str()
    }

    /// The language subtag alone, e.g. `en`.
    pub fn language(&self) -> (r: &str)
        ensures
            r@ == self@.language,
    {
        self.language.as_str()
    }

    /// Language-only equality: the two tags share a language subtag,
    /// whatever their region or script subtags.
    pub fn same_language(&self, other: &LocaleTag) -> (r: bool)
        ensures
            r == (self@.language == other@.language),
    {
        self.language == other.language
    }

    /// Full-tag equality: the two canonical texts coincide.
    pub fn same_full(&self, other: &LocaleTag) -> (r: bool)
        ensures
            r == (self@.full == other@.full),
    {
        self.full == other.full
    }
}

impl Clone for LocaleTag {
    fn clone(&self) -> (r: Self)
        ensures
            r == *self,
    {
        LocaleTag { full: self.full.clone(), language: self.language.clone() }
    }
}

impl PartialEq for LocaleTag {
    fn eq(&self, other: &Self) -> (r: bool) {
        self.full == other.full && self.language == other.language
    }
}

impl vstd::std_specs::cmp::PartialEqSpecImpl for LocaleTag {
    open spec fn obeys_eq_spec() -> bool {
        true
    }

    open spec fn eq_spec(&self, other: &Self) -> bool {
        self@.full == other@.full && self@.language == other@.language
    }
}

/// Some entry of the supported set has this language subtag; membership is
/// always by language equality, never full-tag equality.
pub open spec fn spec_is_supported(lang: Seq<char>, supported: Seq<LocaleTag>) -> bool {
    exists|i: int| 0 <= i < supported.len() && #[trigger] supported[i]@.language == lang
}

/// A tag whose language subtag appears in the supported set is supported,
/// whatever its region or script subtags.
pub proof fn lemma_supported_when_language_listed(
    lang: Seq<char>,
    supported: Seq<LocaleTag>,
    i: int,
)
    requires
        0 <= i < supported.len(),
        supported[i]@.language == lang,
    ensures
        spec_is_supported(lang, supported),
{
}

/// A tag whose language subtag appears nowhere in the supported set is not
/// supported.
pub proof fn lemma_unsupported_when_language_unlisted(lang: Seq<char>, supported: Seq<LocaleTag>)
    requires
        forall|i: int| 0 <= i < supported.len() ==> #[trigger] supported[i]@.language != lang,
    ensures
        !spec_is_supported(lang, supported),
{
}

} // verus!
