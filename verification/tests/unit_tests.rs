use shortener_url_rust::service::commands::CommandHandler;
use shortener_url_rust::service::errors::ShortenerError;
use shortener_url_rust::service::models::{ShortLink, Slug, Url};
use shortener_url_rust::service::queries::QueryHandler;
use shortener_url_rust::service::url_shortener::UrlShortenerService;

#[test]
fn test_create_short_link() {
    let mut short_link = UrlShortenerService::new();
    let url = Url("http://example.com".to_string());
    let slug = Slug("slug".to_string());

    let result = short_link.handle_create_short_link(url.clone(), Some(slug.clone()));
    assert!(result.is_ok());
}

#[test]
fn test_create_short_link_with_existing_slug() {
    let mut short_link = UrlShortenerService::new();
    let url = Url("https://example.com".to_string());
    let slug = Slug("custom_slug".to_string());

    let result1 = short_link.handle_create_short_link(url.clone(), Some(slug.clone()));
    assert!(result1.is_ok());

    let result2 = short_link.handle_create_short_link(url.clone(), Some(slug.clone()));
    assert!(result2.is_err());
    assert_eq!(result2.unwrap_err(), ShortenerError::SlugAlreadyInUse);
}

#[test]
fn test_handle_redirect() {
    let mut short_link = UrlShortenerService::new();
    let url = Url("http://example.com".to_string());
    let slug = Slug("custom_slug".to_string());

    let result = short_link.handle_create_short_link(url.clone(), Some(slug.clone()));
    assert!(result.is_ok());

    let result = short_link.handle_redirect(slug.clone());
    assert!(result.is_ok());

    let short_link = result.unwrap();
    assert_eq!(short_link.url, url);
    assert_eq!(short_link.slug, slug);
}

#[test]
fn test_get_stats() {
    let mut short_link = UrlShortenerService::new();
    let url = Url("http://example.com".to_string());
    let slug = Slug("custom_slug".to_string());

    let result = short_link.handle_create_short_link(url.clone(), Some(slug.clone()));
    assert!(result.is_ok());

    let result = short_link.handle_redirect(slug.clone());
    assert!(result.is_ok());

    let result = short_link.get_stats(slug.clone());

    let stats = result.unwrap();
    assert_eq!(stats.link.url, url);
    assert_eq!(stats.link.slug, slug);
    assert_eq!(stats.redirects, 1)
}

#[test]
fn test_create_returns_given_pair() {
    let mut service = UrlShortenerService::new();
    let url = Url("http://example.com".to_string());
    let slug = Slug("slug".to_string());

    let link = service
        .handle_create_short_link(url.clone(), Some(slug.clone()))
        .unwrap();
    assert_eq!(link, ShortLink { slug, url });
}

#[test]
fn test_redirect_missing_slug() {
    let mut service = UrlShortenerService::new();

    let result = service.handle_redirect(Slug("missing_slug".to_string()));
    assert_eq!(result.unwrap_err(), ShortenerError::SlugNotFound);
}

#[test]
fn test_get_stats_missing_slug() {
    let service = UrlShortenerService::new();

    let result = service.get_stats(Slug("missing_slug".to_string()));
    assert_eq!(result.unwrap_err(), ShortenerError::SlugNotFound);
}

#[test]
fn test_redirect_count_accumulates() {
    let mut service = UrlShortenerService::new();
    let url = Url("https://example.com".to_string());
    let slug = Slug("counted".to_string());

    service
        .handle_create_short_link(url.clone(), Some(slug.clone()))
        .unwrap();
    let stats = service.get_stats(slug.clone()).unwrap();
    assert_eq!(stats.redirects, 0);

    for _ in 0..3 {
        service.handle_redirect(slug.clone()).unwrap();
    }
    let stats = service.get_stats(slug.clone()).unwrap();
    assert_eq!(stats.redirects, 3);
}

#[test]
fn test_url_binding_is_immutable() {
    let mut service = UrlShortenerService::new();
    let url = Url("https://example.com/first".to_string());
    let slug = Slug("fixed".to_string());

    service
        .handle_create_short_link(url.clone(), Some(slug.clone()))
        .unwrap();
    // a colliding create with another URL must not rebind the slug
    let other = Url("https://example.com/second".to_string());
    assert!(service
        .handle_create_short_link(other, Some(slug.clone()))
        .is_err());

    let redirected = service.handle_redirect(slug.clone()).unwrap();
    assert_eq!(redirected.url, url);
    let stats = service.get_stats(slug.clone()).unwrap();
    assert_eq!(stats.link.url, url);
}

#[test]
fn test_auto_generated_slugs_are_distinct() {
    let mut service = UrlShortenerService::new();
    let url = Url("http://example.com".to_string());

    let first = service
        .handle_create_short_link(url.clone(), None)
        .unwrap();
    let second = service
        .handle_create_short_link(url.clone(), None)
        .unwrap();
    assert_eq!(first.slug, Slug("slug_0".to_string()));
    assert_eq!(second.slug, Slug("slug_1".to_string()));
    assert_ne!(first.slug, second.slug);
}

#[test]
fn test_auto_slug_counts_all_events() {
    let mut service = UrlShortenerService::new();
    let url = Url("http://example.com".to_string());
    let slug = Slug("s".to_string());

    service
        .handle_create_short_link(url.clone(), Some(slug.clone()))
        .unwrap();
    service.handle_redirect(slug.clone()).unwrap();

    // one creation and one redirect stand in the log
    let auto = service.handle_create_short_link(url.clone(), None).unwrap();
    assert_eq!(auto.slug, Slug("slug_2".to_string()));
}

#[test]
fn test_failed_operations_leave_state_unchanged() {
    let mut service = UrlShortenerService::new();
    let url = Url("http://example.com".to_string());
    let slug = Slug("slug".to_string());

    service
        .handle_create_short_link(url.clone(), Some(slug.clone()))
        .unwrap();
    service.handle_redirect(slug.clone()).unwrap();

    // both failing commands: neither appends an event nor touches a row
    assert!(service
        .handle_create_short_link(url.clone(), Some(slug.clone()))
        .is_err());
    assert!(service
        .handle_redirect(Slug("missing_slug".to_string()))
        .is_err());

    let stats = service.get_stats(slug.clone()).unwrap();
    assert_eq!(stats.redirects, 1);
    assert_eq!(stats.link.url, url);
    // the event count is still two, so the next generated slug is slug_2
    let auto = service.handle_create_short_link(url.clone(), None).unwrap();
    assert_eq!(auto.slug, Slug("slug_2".to_string()));
}

#[test]
fn test_two_digit_generated_slug() {
    let mut service = UrlShortenerService::new();
    let url = Url("http://example.com".to_string());

    for _ in 0..10 {
        assert!(service.handle_create_short_link(url.clone(), None).is_ok());
    }
    let eleventh = service.handle_create_short_link(url.clone(), None).unwrap();
    assert_eq!(eleventh.slug, Slug("slug_10".to_string()));
}
