//! Locale negotiation for HTTP middleware: parsing locale tags from URL
//! paths and `Accept-Language` headers, matching them against a configured
//! supported set, and deciding whether a request passes through (possibly
//! with its URI rewritten) or is redirected to a locale-prefixed URL.

pub mod error;
pub mod extractor;
pub mod fluent;
pub mod strutil;
pub mod tag;

pub use error::LanguageIdentifierExtractorError;
pub use extractor::LanguageIdentifierExtractor;
pub use extractor::NegotiationOutcome;
pub use extractor::RedirectMode;
pub use fluent::LocalizerError;
pub use fluent::MessageAttribute;
pub use fluent::MessageKey;
pub use tag::LocaleTag;
pub use tag::ParseError;
