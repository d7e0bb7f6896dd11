use axum_l10n::LanguageIdentifierExtractor;
use axum_l10n::LocaleTag;
use axum_l10n::NegotiationOutcome;
use axum_l10n::RedirectMode;

fn english() -> LocaleTag {
    LocaleTag::parse("en").unwrap()
}

fn japanese() -> LocaleTag {
    LocaleTag::parse("ja").unwrap()
}

fn get_serv() -> LanguageIdentifierExtractor {
    let supported = vec![english(), japanese()];
    LanguageIdentifierExtractor::new(&supported, &english())
}

#[test]
fn can_rewrite_uri_full() {
    let uri = "http://localhost:3000/en-US/lists".parse::<http::Uri>().unwrap();

    let service = get_serv().redirect(RedirectMode::RedirectToFullLocaleSubPath);

    let ident = LocaleTag::parse("en-US").unwrap();

    let rewritten = service.rewrite_uri(&uri.to_string(), &ident);
    let uri = http::Uri::try_from(rewritten).unwrap();

    assert_eq!("http://localhost:3000/lists", uri.to_string().as_str());
}

#[test]
fn can_rewrite_uri_lang_only() {
    let uri = "http://localhost:3000/en/lists".parse::<http::Uri>().unwrap();

    let service = get_serv().redirect(RedirectMode::RedirectToLanguageSubPath);

    let ident = LocaleTag::parse("en-US").unwrap();

    let rewritten = service.rewrite_uri(&uri.to_string(), &ident);
    let uri = http::Uri::try_from(rewritten).unwrap();

    assert_eq!("http://localhost:3000/lists", uri.to_string().as_str());
}

#[test]
fn can_rewrite_uri_same_starting_text() {
    let uri = "http://localhost:3000/en/enrollment/details"
        .parse::<http::Uri>()
        .unwrap();

    let service = get_serv().redirect(RedirectMode::RedirectToLanguageSubPath);

    let ident = LocaleTag::parse("en-US").unwrap();

    let rewritten = service.rewrite_uri(&uri.to_string(), &ident);
    let uri = http::Uri::try_from(rewritten).unwrap();

    assert_eq!(
        "http://localhost:3000/enrollment/details",
        uri.to_string().as_str()
    );
}

#[test]
fn can_rewrite_uri_with_query_params() {
    let uri = "http://localhost:3000/en/?page=1".parse::<http::Uri>().unwrap();

    let service = get_serv().redirect(RedirectMode::RedirectToLanguageSubPath);

    let ident = LocaleTag::parse("en-US").unwrap();

    let rewritten = service.rewrite_uri(&uri.to_string(), &ident);
    let uri = http::Uri::try_from(rewritten).unwrap();

    assert_eq!("http://localhost:3000/?page=1", uri.to_string().as_str());
}

#[test]
fn can_redirect_with_query_params() {
    let uri = "http://localhost:3000/?page=1".parse::<http::Uri>().unwrap();
    let req = http::Request::builder()
        .uri(uri)
        .header("Accept-Language", "en-US,en;q=0.5")
        .body(())
        .unwrap();

    let service = get_serv().redirect(RedirectMode::RedirectToLanguageSubPath);

    let header_value = req
        .headers()
        .get("Accept-Language")
        .and_then(|val| val.to_str().ok());

    let new_path = service.build_redirect_path(req.uri().path(), req.uri().query(), header_value);

    assert_eq!("/en/?page=1", new_path.as_str());
}

#[test]
fn can_get_supported_lang_code_from_uri() {
    let uri = "http://localhost:3000/ja/lists".parse::<http::Uri>().unwrap();

    let service = get_serv();

    let ident = service.lang_code_from_uri(uri.path());

    assert!(ident.is_some());
    assert_eq!(ident.unwrap(), japanese())
}

#[test]
fn unsupported_lang_code_from_uri() {
    let uri = "http://localhost:3000/de/lists".parse::<http::Uri>().unwrap();

    let service = get_serv();

    let ident = service.lang_code_from_uri(uri.path());

    assert!(ident.is_none());
}

#[test]
fn can_extract_lang_header_single() {
    let mut headers = http::HeaderMap::new();
    headers.insert("Accept-Language", http::HeaderValue::from_static("en"));

    let service = get_serv();

    let header_value = headers.get("Accept-Language").unwrap().to_str().unwrap();
    let ident = service.lang_code_from_headers(header_value).unwrap();

    let target = LocaleTag::parse("en").unwrap();
    assert_eq!(ident, target)
}

#[test]
fn can_extract_lang_header_compound() {
    let mut headers = http::HeaderMap::new();
    headers.insert("Accept-Language", http::HeaderValue::from_static("en-US"));

    let service = get_serv();

    let header_value = headers.get("Accept-Language").unwrap().to_str().unwrap();
    let ident = service.lang_code_from_headers(header_value).unwrap();

    let target = LocaleTag::parse("en-US").unwrap();
    assert_eq!(ident, target)
}

#[test]
fn can_extract_lang_header_compound_with_quality_val() {
    let mut headers = http::HeaderMap::new();
    headers.insert(
        "Accept-Language",
        http::HeaderValue::from_static("en-US,en;q=0.5"),
    );

    let service = get_serv();

    let header_value = headers.get("Accept-Language").unwrap().to_str().unwrap();
    let ident = service.lang_code_from_headers(header_value).unwrap();

    let target = LocaleTag::parse("en-US").unwrap();
    assert_eq!(ident.language(), target.language())
}

#[test]
fn can_extract_lang_header_wildcard() {
    let mut headers = http::HeaderMap::new();
    headers.insert("Accept-Language", http::HeaderValue::from_static("*"));
}

#[test]
fn wildcard_header_yields_nothing() {
    let service = get_serv();

    assert!(service.lang_code_from_headers("*").is_none());
}

#[test]
fn supported_ignores_region_and_script() {
    let service = get_serv();

    let us = LocaleTag::parse("en-US").unwrap();
    let gb = LocaleTag::parse("en-GB").unwrap();
    let jp = LocaleTag::parse("ja-JP").unwrap();

    assert!(service.supported(&us));
    assert!(service.supported(&gb));
    assert!(service.supported(&jp));
}

#[test]
fn unsupported_language_is_rejected() {
    let service = get_serv();

    let de = LocaleTag::parse("de").unwrap();
    let de_at = LocaleTag::parse("de-AT").unwrap();

    assert!(!service.supported(&de));
    assert!(!service.supported(&de_at));
}

#[test]
fn header_order_is_preserved() {
    let service = get_serv();

    let ident = service.lang_code_from_headers("de,en-US;q=0.5").unwrap();

    assert_eq!(ident.full(), "en-US");
    assert_eq!(ident.language(), "en");
}

#[test]
fn empty_header_yields_nothing() {
    let service = get_serv();

    assert!(service.lang_code_from_headers("").is_none());
    assert!(service.lang_code_from_headers("  ").is_none());
    assert!(service.lang_code_from_headers("de,fr;q=0.8").is_none());
}

#[test]
fn parse_rejects_malformed_text() {
    assert!(LocaleTag::parse("").is_err());
    assert!(LocaleTag::parse("*").is_err());
    assert!(LocaleTag::parse("e").is_err());
    assert!(LocaleTag::parse("en US").is_err());
    assert!(LocaleTag::parse("12").is_err());
}

#[test]
fn parse_normalizes_tag_text() {
    let tag = LocaleTag::parse("EN-us").unwrap();

    assert_eq!(tag.full(), "en-US");
    assert_eq!(tag.language(), "en");
}

#[test]
fn negotiate_redirects_without_locale_prefix() {
    let service = get_serv().redirect(RedirectMode::RedirectToLanguageSubPath);

    let outcome = service.negotiate(
        "http://localhost:3000/?page=1",
        "/",
        Some("page=1"),
        Some("en-US,en;q=0.5"),
    );

    match outcome {
        NegotiationOutcome::Redirect { location } => assert_eq!("/en/?page=1", location.as_str()),
        _ => panic!("expected a redirect"),
    }
}

#[test]
fn negotiate_attaches_and_rewrites_on_locale_prefix() {
    let service = get_serv().redirect(RedirectMode::RedirectToLanguageSubPath);

    let outcome = service.negotiate("http://localhost:3000/ja/lists", "/ja/lists", None, None);

    match outcome {
        NegotiationOutcome::Attach { tag, rewritten_uri } => {
            assert_eq!(tag, japanese());
            assert_eq!("http://localhost:3000/lists", rewritten_uri.unwrap().as_str());
        }
        _ => panic!("expected attach"),
    }
}

#[test]
fn negotiate_passes_excluded_path_through() {
    let service = get_serv()
        .redirect(RedirectMode::RedirectToLanguageSubPath)
        .excluded_paths(&["/.well-known"]);

    let outcome = service.negotiate(
        "http://localhost:3000/.well-known/acme",
        "/.well-known/acme",
        None,
        Some("en-US"),
    );

    assert!(matches!(outcome, NegotiationOutcome::PassThrough));
}

#[test]
fn negotiate_no_redirect_attaches_header_locale() {
    let service = get_serv();

    let outcome = service.negotiate("http://localhost:3000/lists", "/lists", None, Some("ja"));

    match outcome {
        NegotiationOutcome::Attach { tag, rewritten_uri } => {
            assert_eq!(tag, japanese());
            assert!(rewritten_uri.is_none());
        }
        _ => panic!("expected attach"),
    }
}

#[test]
fn negotiate_no_redirect_falls_back_to_default() {
    let service = get_serv();

    let outcome = service.negotiate("http://localhost:3000/lists", "/lists", None, None);

    match outcome {
        NegotiationOutcome::Attach { tag, rewritten_uri } => {
            assert_eq!(tag, english());
            assert!(rewritten_uri.is_none());
        }
        _ => panic!("expected attach"),
    }
}

#[test]
fn redirect_target_uses_full_tag_in_full_mode() {
    let service = get_serv().redirect(RedirectMode::RedirectToFullLocaleSubPath);

    let target = service.build_redirect_path("/lists", None, Some("en-US,en;q=0.5"));

    assert_eq!("/en-US/lists", target.as_str());
}

#[test]
fn rewrite_is_idempotent_once_prefix_free() {
    let service = get_serv().redirect(RedirectMode::RedirectToLanguageSubPath);
    let ident = LocaleTag::parse("en-US").unwrap();

    let once = service.rewrite_uri("http://localhost:3000/en/enrollment/details", &ident);
    assert_eq!("http://localhost:3000/enrollment/details", once.as_str());

    let twice = service.rewrite_uri(&once, &ident);
    assert_eq!(once, twice);
}

#[test]
fn builder_keeps_configuration() {
    let service = get_serv()
        .redirect(RedirectMode::RedirectToLanguageSubPath)
        .excluded_paths(&["/api", "/assets"]);

    assert!(matches!(
        service.redirect_mode,
        RedirectMode::RedirectToLanguageSubPath
    ));
    assert_eq!(service.excluded_paths.len(), 2);
    assert_eq!(service.excluded_paths[0], "/api");
    assert_eq!(service.excluded_paths[1], "/assets");
    assert_eq!(service.default_lang, english());
    assert_eq!(service.supported_langs.len(), 2);
}

#[test]
fn non_tag_second_segment_yields_nothing() {
    let service = get_serv();

    assert!(service.lang_code_from_uri("/enrollment/details").is_none());
    assert!(service.lang_code_from_uri("/").is_none());
    assert!(service.lang_code_from_uri("").is_none());
}

#[test]
fn rewrite_without_prefix_is_noop() {
    let service = get_serv().redirect(RedirectMode::RedirectToLanguageSubPath);
    let ident = LocaleTag::parse("ja").unwrap();

    let rewritten = service.rewrite_uri("http://localhost:3000/lists", &ident);

    assert_eq!("http://localhost:3000/lists", rewritten.as_str());
}

#[test]
fn redirect_target_falls_back_to_default() {
    let service = get_serv().redirect(RedirectMode::RedirectToLanguageSubPath);

    let target = service.build_redirect_path("/lists", None, None);
    assert_eq!("/en/lists", target.as_str());

    let target = service.build_redirect_path("/lists", Some("page=2"), Some("de,fr"));
    assert_eq!("/en/lists?page=2", target.as_str());
}
