//! The negotiation engine: redirect modes, the immutable per-instance
//! configuration, locale extraction from the URI path and from the
//! `Accept-Language` header, URI rewriting, redirect-target construction,
//! and the per-request decision tying them together.

use vstd::prelude::*;
use vstd::string::StrSliceExecFns;
use vstd::string::StringExecFns;

use crate::strutil::find_char;
use crate::strutil::lemma_replace_sole_occurrence;
use crate::strutil::lemma_spec_find;
use crate::strutil::replace_first;
use crate::strutil::spec_find;
use crate::strutil::spec_has_sub;
use crate::strutil::spec_match_at;
use crate::strutil::spec_replace_first;
use crate::strutil::spec_starts_with;
use crate::strutil::starts_with;
use crate::tag::parse_tag;
use crate::tag::parsed_tag;
use crate::tag::spec_is_supported;
use crate::tag::tag_opt_matches;
use crate::tag::LocaleTag;
use crate::tag::TagView;

verus! {

/// The redirect mode for the service.
#[derive(Debug, Clone, Copy, PartialEq, Eq, Structural)]
pub enum RedirectMode {
    /// Does not redirect, only attaches the locale found in the header.
    NoRedirect,
    /// Redirects to a sub-path carrying the full tag, e.g. `/en-US/lists`.
    RedirectToFullLocaleSubPath,
    /// Redirects to a sub-path carrying the language only, e.g. `/en/lists`.
    RedirectToLanguageSubPath,
}

/// The immutable configuration of one middleware instance: the default
/// locale, the ordered supported set, the redirect mode, and the path
/// prefixes excluded from redirecting.
#[derive(Debug, Clone)]
pub struct LanguageIdentifierExtractor {
    pub default_lang: LocaleTag,
    pub supported_langs: Vec<LocaleTag>,
    pub redirect_mode: RedirectMode,
    pub excluded_paths: Vec<String>,
}

/// The view of an optional borrowed string.
pub open spec fn opt_view(o: Option<&str>) -> Option<Seq<char>> {
    match o {
        Some(s) => Some(s@),
        None => None,
    }
}

/// The path starts with one of the excluded prefixes.
pub open spec fn spec_excluded(path: Seq<char>, excluded: Seq<String>) -> bool {
    exists|i: int| 0 <= i < excluded.len() && spec_starts_with(path, (#[trigger] excluded[i])@)
}

/// The second `/`-separated segment of the path: the text between the first
/// `/` and the next one (or the end). A path without any `/` has no second
/// segment.
pub open spec fn spec_second_segment(path: Seq<char>) -> Option<Seq<char>> {
    let i = spec_find(path, '/');
    if i < path.len() {
        let rest = path.skip(i + 1);
        Some(rest.take(spec_find(rest, '/')))
    } else {
        None
    }
}

/// The locale the path names: its second segment, parsed as a tag, kept only
/// when its language subtag is supported.
pub open spec fn spec_path_extract(path: Seq<char>, supported: Seq<LocaleTag>) -> Option<
    (Seq<char>, Seq<char>),
> {
    match spec_second_segment(path) {
        Some(seg) => match parsed_tag(seg) {
            Some(p) => if spec_is_supported(p.1, supported) {
                Some(p)
            } else {
                None
            },
            None => None,
        },
        None => None,
    }
}

impl LanguageIdentifierExtractor {
    /// A configuration with the given supported set and default locale,
    /// redirecting disabled and no excluded paths.
    pub fn new(supported_langs: &[LocaleTag], default_lang: &LocaleTag) -> (r: Self)
        ensures
            r.default_lang == *default_lang,
            r.supported_langs@ == supported_langs@,
            r.redirect_mode is NoRedirect,
            r.excluded_paths@.len() == 0,
    {
        let n = supported_langs.len();
        let mut v: Vec<LocaleTag> = Vec::new();
        let mut i: usize = 0;
        while i < n
            invariant
                n == supported_langs@.len(),
                0 <= i <= n,
                v@ =~= supported_langs@.take(i as int),
            decreases n - i,
        {
            v.push(vstd::slice::slice_index_get(supported_langs, i).clone());
            assert(v@ =~= supported_langs@.take(i + 1));
            i += 1;
        }
        assert(v@ =~= supported_langs@);
        LanguageIdentifierExtractor {
            default_lang: default_lang.clone(),
            supported_langs: v,
            redirect_mode: RedirectMode::NoRedirect,
            excluded_paths: Vec::new(),
        }
    }

    /// Change the redirect mode of the configuration.
    pub fn redirect(self, redirect_mode: RedirectMode) -> (r: Self)
        ensures
            r.redirect_mode == redirect_mode,
            r.default_lang == self.default_lang,
            r.supported_langs == self.supported_langs,
            r.excluded_paths == self.excluded_paths,
    {
        LanguageIdentifierExtractor {
            default_lang: self.default_lang,
            supported_langs: self.supported_langs,
            redirect_mode,
            excluded_paths: self.excluded_paths,
        }
    }

    /// Exclude paths from redirecting when in a redirect mode. Prefixes
    /// should start with `/`.
    pub fn excluded_paths(self, paths_to_exclude: &[&str]) -> (r: Self)
        ensures
            r.excluded_paths@.len() == paths_to_exclude@.len(),
            forall|i: int|
                0 <= i < paths_to_exclude@.len() ==> (#[trigger] r.excluded_paths@[i])@
                    == paths_to_exclude@[i]@,
            r.default_lang == self.default_lang,
            r.supported_langs == self.supported_langs,
            r.redirect_mode == self.redirect_mode,
    {
        let n = paths_to_exclude.len();
        let mut v: Vec<String> = Vec::new();
        let mut i: usize = 0;
        while i < n
            invariant
                n == paths_to_exclude@.len(),
                0 <= i <= n,
                v@.len() == i,
                forall|j: int| 0 <= j < i ==> (#[trigger] v@[j])@ == paths_to_exclude@[j]@,
            decreases n - i,
        {
            let p: &&str = vstd::slice::slice_index_get(paths_to_exclude, i);
            v.push(String::from_str(*p));
            i += 1;
        }
        LanguageIdentifierExtractor {
            default_lang: self.default_lang,
            supported_langs: self.supported_langs,
            redirect_mode: self.redirect_mode,
            excluded_paths: v,
        }
    }

    /// Some entry of the supported set has the same language subtag as the
    /// candidate; region and script are ignored.
    pub fn supported(&self, tag: &LocaleTag) -> (r: bool)
        ensures
            r == spec_is_supported(tag@.language, self.supported_langs@),
    {
        let n = self.supported_langs.len();
        let mut i: usize = 0;
        while i < n
            invariant
                n == self.supported_langs@.len(),
                0 <= i <= n,
                forall|j: int|
                    0 <= j < i ==> #[trigger] self.supported_langs@[j]@.language != tag@.language,
            decreases n - i,
        {
            if self.supported_langs[i].same_language(tag) {
                return true;
            }
            i += 1;
        }
        false
    }

    /// The path starts with one of the configured excluded prefixes.
    pub fn is_excluded(&self, path: &str) -> (r: bool)
        ensures
            r == spec_excluded(path@, self.excluded_paths@),
    {
        let n = self.excluded_paths.len();
        let mut i: usize = 0;
        while i < n
            invariant
                n == self.excluded_paths@.len(),
                0 <= i <= n,
                forall|j: int|
                    0 <= j < i ==> !spec_starts_with(path@, (#[trigger] self.excluded_paths@[j])@),
            decreases n - i,
    {
            if starts_with(path, self.excluded_paths[i].as_str()) {
                proof {
                    assert(spec_starts_with(path@, self.excluded_paths@[i as int]@));
                }
                return true;
            }
            i += 1;
        }
        false
    }

    /// Extract the locale the path names, if any: its second segment must
    /// parse as a tag whose language subtag is supported.
    pub fn lang_code_from_uri(&self, path: &str) -> (r: Option<LocaleTag>)
        ensures
            tag_opt_matches(r, spec_path_extract(path@, self.supported_langs@)),
    {
        let n = path.unicode_len();
        let i = find_char(path, '/');
        proof {
            lemma_spec_find(path@, '/');
        }
        if i == n {
            return None;
        }
        let rest = path.substring_char(i + 1, n);
        let j = find_char(rest, '/');
        proof {
            lemma_spec_find(rest@, '/');
        }
        let seg = rest.substring_char(0, j);
        match parse_tag(seg) {
            Some(t) => {
                if self.supported(&t) {
                    Some(t)
                } else {
                    None
                }
            },
            None => None,
        }
    }
}

/// A quality suffix (`;q=...`) stripped: the text before the first `;`.
pub open spec fn spec_strip_quality(seg: Seq<char>) -> Seq<char> {
    seg.take(spec_find(seg, ';'))
}

/// What one header segment contributes: empty segments are discarded; the
/// rest are stripped of their quality suffix and parsed, and a tag counts
/// only when its language subtag is supported.
pub open spec fn spec_segment_hit(seg: Seq<char>, supported: Seq<LocaleTag>) -> Option<
    (Seq<char>, Seq<char>),
> {
    if seg.len() > 0 {
        match parsed_tag(spec_strip_quality(seg)) {
            Some(p) => if spec_is_supported(p.1, supported) {
                Some(p)
            } else {
                None
            },
            None => None,
        }
    } else {
        None
    }
}

/// The first supported preference among the `,`-separated segments of `s`,
/// in header order; segments that are empty, malformed, or unsupported are
/// passed over without aborting the scan.
pub open spec fn spec_scan_segments(s: Seq<char>, supported: Seq<LocaleTag>) -> Option<
    (Seq<char>, Seq<char>),
>
    decreases s.len(),
{
    let i = spec_find(s, ',');
    let hit = spec_segment_hit(s.take(i), supported);
    if hit is Some {
        hit
    } else if 0 <= i < s.len() {
        spec_scan_segments(s.skip(i + 1), supported)
    } else {
        None
    }
}

/// The locale an `Accept-Language` value yields: the whole value as a single
/// supported tag when that parses, else the first supported preference among
/// its comma-separated segments.
pub open spec fn spec_extract_header(value: Seq<char>, supported: Seq<LocaleTag>) -> Option<
    (Seq<char>, Seq<char>),
> {
    match parsed_tag(value) {
        Some(p) => if spec_is_supported(p.1, supported) {
            Some(p)
        } else {
            spec_scan_segments(value, supported)
        },
        None => spec_scan_segments(value, supported),
    }
}

impl LanguageIdentifierExtractor {
    /// The supported tag one header segment yields, if any.
    fn segment_hit(&self, seg: &str) -> (r: Option<LocaleTag>)
        ensures
            tag_opt_matches(r, spec_segment_hit(seg@, self.supported_langs@)),
    {
        let n = seg.unicode_len();
        if n == 0 {
            return None;
        }
        let j = find_char(seg, ';');
        proof {
            lemma_spec_find(seg@, ';');
        }
        let stripped = seg.substring_char(0, j);
        proof {
            assert(stripped@ =~= spec_strip_quality(seg@));
        }
        match parse_tag(stripped) {
            Some(t) => if self.supported(&t) {
                Some(t)
            } else {
                None
            },
            None => None,
        }
    }

    /// Extract the locale the `Accept-Language` value asks for: the whole
    /// value when it is a single supported tag, else the first supported
    /// preference in header order.
    pub fn lang_code_from_headers(&self, header_value: &str) -> (r: Option<LocaleTag>)
        ensures
            tag_opt_matches(r, spec_extract_header(header_value@, self.supported_langs@)),
    {
        if let Some(t) = parse_tag(header_value) {
            if self.supported(&t) {
                return Some(t);
            }
        }
        let mut rest: &str = header_value;
        loop
            invariant
                spec_scan_segments(rest@, self.supported_langs@) == spec_extract_header(
                    header_value@,
                    self.supported_langs@,
                ),
            decreases rest@.len(),
        {
            let n = rest.unicode_len();
            let i = find_char(rest, ',');
            proof {
                lemma_spec_find(rest@, ',');
            }
            let seg = rest.substring_char(0, i);
            proof {
                assert(seg@ =~= rest@.take(i as int));
            }
            match self.segment_hit(seg) {
                Some(t) => {
                    return Some(t);
                },
                None => {},
            }
            if i < n {
                let next = rest.substring_char(i + 1, n);
                proof {
                    assert(next@ =~= rest@.skip(i + 1));
                }
                rest = next;
            } else {
                return None;
            }
        }
    }
}

/// The tag text a path-prefix mode uses: the full canonical tag or the
/// language subtag alone.
pub open spec fn spec_mode_code(mode: RedirectMode, t: TagView) -> Seq<char> {
    match mode {
        RedirectMode::RedirectToFullLocaleSubPath => t.full,
        RedirectMode::RedirectToLanguageSubPath => t.language,
        RedirectMode::NoRedirect => arbitrary(),
    }
}

/// The locale prefix pattern a path-prefix mode strips: `/<code>/`.
pub open spec fn spec_locale_pattern(mode: RedirectMode, t: TagView) -> Seq<char> {
    seq!['/'] + spec_mode_code(mode, t) + seq!['/']
}

/// The URI with the first occurrence of the locale prefix pattern replaced
/// by a single `/`; only that first occurrence, so a later segment that
/// shares text with the locale code survives untouched.
pub open spec fn spec_rewrite_uri(mode: RedirectMode, t: TagView, uri: Seq<char>) -> Seq<char> {
    spec_replace_first(uri, spec_locale_pattern(mode, t), seq!['/'])
}

/// The tag governing a redirect: what the header asks for, else the default
/// locale.
pub open spec fn spec_chosen_tag(
    default: TagView,
    supported: Seq<LocaleTag>,
    header: Option<Seq<char>>,
) -> (Seq<char>, Seq<char>) {
    match header {
        Some(h) => match spec_extract_header(h, supported) {
            Some(p) => p,
            None => (default.full, default.language),
        },
        None => (default.full, default.language),
    }
}

/// The redirect target: `/<code>` + original path + original query string,
/// the code being the chosen tag's text for the mode.
pub open spec fn spec_redirect_path(
    mode: RedirectMode,
    default: TagView,
    supported: Seq<LocaleTag>,
    path: Seq<char>,
    query: Option<Seq<char>>,
    header: Option<Seq<char>>,
) -> Seq<char> {
    let chosen = spec_chosen_tag(default, supported, header);
    let code = match mode {
        RedirectMode::RedirectToFullLocaleSubPath => chosen.0,
        RedirectMode::RedirectToLanguageSubPath => chosen.1,
        RedirectMode::NoRedirect => arbitrary(),
    };
    seq!['/'] + code + path + (match query {
        Some(q) => seq!['?'] + q,
        None => Seq::<char>::empty(),
    })
}

impl LanguageIdentifierExtractor {
    /// Rewrite the URI without the locale prefix: the first occurrence of
    /// `/<code>/` becomes `/`, the code being the full tag or the language
    /// subtag as the mode directs.
    pub fn rewrite_uri(&self, uri: &str, ident: &LocaleTag) -> (r: String)
        requires
            !(self.redirect_mode is NoRedirect),
        ensures
            r@ == spec_rewrite_uri(self.redirect_mode, ident@, uri@),
    {
        let code: &str = match self.redirect_mode {
            RedirectMode::RedirectToFullLocaleSubPath => ident.full(),
            RedirectMode::RedirectToLanguageSubPath => ident.language(),
            RedirectMode::NoRedirect => unreached(),
        };
        let mut pat = String::from_str("/");
        pat.append(code);
        pat.append("/");
        proof {
            reveal_strlit("/");
            assert(pat@ =~= spec_locale_pattern(self.redirect_mode, ident@));
        }
        let r = replace_first(uri, pat.as_str(), "/");
        proof {
            assert("/"@ =~= seq!['/']);
        }
        r
    }

    /// Build the redirect target for a request without a locale prefix:
    /// `/` + chosen code + original path, the original query string kept.
    pub fn build_redirect_path(&self, path: &str, query: Option<&str>, header_value: Option<&str>) -> (r:
        String)
        requires
            !(self.redirect_mode is NoRedirect),
        ensures
            r@ == spec_redirect_path(
                self.redirect_mode,
                self.default_lang@,
                self.supported_langs@,
                path@,
                opt_view(query),
                opt_view(header_value),
            ),
    {
        let ident: LocaleTag = match header_value {
            Some(h) => match self.lang_code_from_headers(h) {
                Some(t) => t,
                None => self.default_lang.clone(),
            },
            None => self.default_lang.clone(),
        };
        let mut out = String::from_str("/");
        match self.redirect_mode {
            RedirectMode::RedirectToFullLocaleSubPath => out.append(ident.full()),
            RedirectMode::RedirectToLanguageSubPath => out.append(ident.language()),
            RedirectMode::NoRedirect => unreached(),
        }
        out.append(path);
        match query {
            Some(q) => {
                out.append("?");
                out.append(q);
            },
            None => {},
        }
        proof {
            reveal_strlit("/");
            reveal_strlit("?");
            assert(out@ =~= spec_redirect_path(
                self.redirect_mode,
                self.default_lang@,
                self.supported_langs@,
                path@,
                opt_view(query),
                opt_view(header_value),
            ));
        }
        out
    }
}

/// The decision for one request: proceed with a locale attached (the URI
/// rewritten in path-prefix modes), proceed untouched because the path is
/// excluded, or answer with a redirect to the given location.
#[derive(Debug)]
pub enum NegotiationOutcome {
    Attach { tag: LocaleTag, rewritten_uri: Option<String> },
    PassThrough,
    Redirect { location: String },
}

/// Spec-level image of a negotiation outcome.
pub enum SpecOutcome {
    Attach { tag: TagView, rewritten_uri: Option<Seq<char>> },
    PassThrough,
    Redirect { location: Seq<char> },
}

impl View for NegotiationOutcome {
    type V = SpecOutcome;

    open spec fn view(&self) -> SpecOutcome {
        match self {
            NegotiationOutcome::Attach { tag, rewritten_uri } => SpecOutcome::Attach {
                tag: tag@,
                rewritten_uri: match rewritten_uri {
                    Some(u) => Some(u@),
                    None => None,
                },
            },
            NegotiationOutcome::PassThrough => SpecOutcome::PassThrough,
            NegotiationOutcome::Redirect { location } => SpecOutcome::Redirect {
                location: location@,
            },
        }
    }
}

/// The whole per-request transition. In `NoRedirect` mode the header's
/// choice (else the default) is attached and nothing else happens. In a
/// path-prefix mode a locale named by the path is attached with the URI
/// rewritten; otherwise an excluded path passes through untouched, and any
/// other path is answered with a redirect to the locale-prefixed target.
pub open spec fn spec_negotiate(
    cfg: LanguageIdentifierExtractor,
    uri: Seq<char>,
    path: Seq<char>,
    query: Option<Seq<char>>,
    header: Option<Seq<char>>,
) -> SpecOutcome {
    if cfg.redirect_mode is NoRedirect {
        let chosen = spec_chosen_tag(cfg.default_lang@, cfg.supported_langs@, header);
        SpecOutcome::Attach {
            tag: TagView { full: chosen.0, language: chosen.1 },
            rewritten_uri: None,
        }
    } else {
        match spec_path_extract(path, cfg.supported_langs@) {
            Some(p) => SpecOutcome::Attach {
                tag: TagView { full: p.0, language: p.1 },
                rewritten_uri: Some(
                    spec_rewrite_uri(
                        cfg.redirect_mode,
                        TagView { full: p.0, language: p.1 },
                        uri,
                    ),
                ),
            },
            None => if spec_excluded(path, cfg.excluded_paths@) {
                SpecOutcome::PassThrough
            } else {
                SpecOutcome::Redirect {
                    location: spec_redirect_path(
                        cfg.redirect_mode,
                        cfg.default_lang@,
                        cfg.supported_langs@,
                        path,
                        query,
                        header,
                    ),
                }
            },
        }
    }
}

impl LanguageIdentifierExtractor {
    /// Decide one request, given its URI text, its path, its query string
    /// and its `Accept-Language` value (each absent when the request lacks
    /// it).
    pub fn negotiate(
        &self,
        uri: &str,
        path: &str,
        query: Option<&str>,
        header_value: Option<&str>,
    ) -> (r: NegotiationOutcome)
        ensures
            r@ == spec_negotiate(*self, uri@, path@, opt_view(query), opt_view(header_value)),
    {
        match self.redirect_mode {
            RedirectMode::NoRedirect => {
                let tag: LocaleTag = match header_value {
                    Some(h) => match self.lang_code_from_headers(h) {
                        Some(t) => t,
                        None => self.default_lang.clone(),
                    },
                    None => self.default_lang.clone(),
                };
                NegotiationOutcome::Attach { tag, rewritten_uri: None }
            },
            RedirectMode::RedirectToFullLocaleSubPath | RedirectMode::RedirectToLanguageSubPath => {
                match self.lang_code_from_uri(path) {
                    Some(t) => {
                        let rewritten = self.rewrite_uri(uri, &t);
                        NegotiationOutcome::Attach { tag: t, rewritten_uri: Some(rewritten) }
                    },
                    None => {
                        if self.is_excluded(path) {
                            NegotiationOutcome::PassThrough
                        } else {
                            let location = self.build_redirect_path(path, query, header_value);
                            NegotiationOutcome::Redirect { location }
                        }
                    },
                }
            },
        }
    }
}

/// In a path-prefix mode, a request to an excluded-prefix path whose URI
/// names no locale passes through untouched: no redirect and no locale
/// attached.
pub proof fn lemma_excluded_passes_through(
    cfg: LanguageIdentifierExtractor,
    uri: Seq<char>,
    path: Seq<char>,
    query: Option<Seq<char>>,
    header: Option<Seq<char>>,
)
    requires
        !(cfg.redirect_mode is NoRedirect),
        spec_path_extract(path, cfg.supported_langs@) is None,
        spec_excluded(path, cfg.excluded_paths@),
    ensures
        spec_negotiate(cfg, uri, path, query, header) is PassThrough,
{
}

/// In a path-prefix mode, once the path names a supported locale the header
/// plays no part: the decision is the same whatever the header says.
pub proof fn lemma_path_takes_precedence(
    cfg: LanguageIdentifierExtractor,
    uri: Seq<char>,
    path: Seq<char>,
    query: Option<Seq<char>>,
    header_a: Option<Seq<char>>,
    header_b: Option<Seq<char>>,
)
    requires
        !(cfg.redirect_mode is NoRedirect),
        spec_path_extract(path, cfg.supported_langs@) is Some,
    ensures
        spec_negotiate(cfg, uri, path, query, header_a) == spec_negotiate(
            cfg,
            uri,
            path,
            query,
            header_b,
        ),
{
}

/// Rewriting is a no-op on a URI in which the locale prefix pattern does
/// not occur; in particular, rewriting a second time is a no-op whenever
/// the first rewrite removed every occurrence.
pub proof fn lemma_rewrite_prefix_free_noop(mode: RedirectMode, t: TagView, uri: Seq<char>)
    requires
        !spec_has_sub(uri, spec_locale_pattern(mode, t)),
    ensures
        spec_rewrite_uri(mode, t, uri) == uri,
{
}

/// The path-prefix rewrite is idempotent on every URI whose once-rewritten
/// form is free of the locale prefix pattern: applying it a second time
/// changes nothing.
pub proof fn lemma_rewrite_idempotent(mode: RedirectMode, t: TagView, uri: Seq<char>)
    requires
        !spec_has_sub(spec_rewrite_uri(mode, t, uri), spec_locale_pattern(mode, t)),
    ensures
        spec_rewrite_uri(mode, t, spec_rewrite_uri(mode, t, uri)) == spec_rewrite_uri(
            mode,
            t,
            uri,
        ),
{
    lemma_rewrite_prefix_free_noop(mode, t, spec_rewrite_uri(mode, t, uri));
}

/// In a path-prefix mode, the rewrite of a URI in which the locale prefix
/// pattern occurs exactly once yields a pattern-free URI, so a second
/// rewrite is a no-op. (The locale code of a parsed tag holds no `/`; with
/// a second occurrence present, such as `/en/en/lists`, removal can expose
/// a fresh occurrence and the rewrite is applied to it.)
pub proof fn lemma_rewrite_sole_occurrence_idempotent(
    mode: RedirectMode,
    t: TagView,
    uri: Seq<char>,
    i: int,
)
    requires
        !(mode is NoRedirect),
        forall|u: int|
            0 <= u < spec_mode_code(mode, t).len() ==> spec_mode_code(mode, t)[u] != '/',
        spec_match_at(uri, spec_locale_pattern(mode, t), i),
        forall|j: int| spec_match_at(uri, spec_locale_pattern(mode, t), j) ==> j == i,
    ensures
        !spec_has_sub(spec_rewrite_uri(mode, t, uri), spec_locale_pattern(mode, t)),
        spec_rewrite_uri(mode, t, spec_rewrite_uri(mode, t, uri)) == spec_rewrite_uri(
            mode,
            t,
            uri,
        ),
{
    lemma_replace_sole_occurrence(uri, spec_mode_code(mode, t), i);
    lemma_rewrite_prefix_free_noop(mode, t, spec_rewrite_uri(mode, t, uri));
}

} // verus!
