use lemmy_bb::error::{
    catalogue_language, collect_results, localize_error_message, ApiError, ErrorPage,
    ErrorTemplate, ERROR_STATUS,
};

#[test]
fn localize_error() {
    assert_eq!(
        "No se pudo encontrar ese nombre de usuario o correo electr√≥nico.",
        localize_error_message(
            "couldnt_find_that_username_or_email".to_string(),
            Some("No se pudo encontrar ese nombre de usuario o correo electr√≥nico.".to_string())
        )
    );
    assert_eq!("missing_key", localize_error_message("missing_key".to_string(), None));
}

#[test]
fn error_text_is_the_token_or_the_message() {
    assert_eq!(ApiError::Upstream("not_logged_in".to_string()).message(), "not_logged_in");
    assert_eq!(ApiError::Transport("timed out".to_string()).message(), "timed out");
    assert_eq!(ApiError::Deserialize("bad json".to_string()).message(), "bad json");
    assert_eq!(ApiError::Rejected("no".to_string()).message(), "no");
    let copy = ApiError::Upstream("x".to_string()).duplicate();
    assert!(matches!(copy, ApiError::Upstream(token) if token == "x"));
}

#[test]
fn only_the_backend_s_token_says_not_logged_in() {
    assert!(ApiError::Upstream("not_logged_in".to_string()).not_logged_in());
    assert!(!ApiError::Upstream("not_logged_in ".to_string()).not_logged_in());
    assert!(!ApiError::Upstream("Not_logged_in".to_string()).not_logged_in());
    assert!(!ApiError::Transport("not_logged_in".to_string()).not_logged_in());
    assert!(!ApiError::Rejected("not_logged_in".to_string()).not_logged_in());
}

#[test]
fn error_page_within_the_site_is_localized() {
    let page = ErrorPage::from(ApiError::Upstream("couldnt_find_post".to_string()));
    let view = page.respond_to(true, Some("Beitrag nicht gefunden".to_string()));
    assert_eq!(view.template, ErrorTemplate::Message);
    assert_eq!(view.title, "Beitrag nicht gefunden");
    assert_eq!(view.error, None);
    assert_eq!(view.status, 500);
    assert_eq!(ERROR_STATUS, 500);
    let page = ErrorPage(ApiError::Upstream("couldnt_find_post".to_string()));
    let view = page.respond_to(true, None);
    assert_eq!(view.title, "couldnt_find_post");
}

#[test]
fn error_page_without_the_site_is_raw() {
    let page = ErrorPage::from(ApiError::Transport("connection refused".to_string()));
    let view = page.respond_to(false, Some("ignored".to_string()));
    assert_eq!(view.template, ErrorTemplate::Error);
    assert_eq!(view.title, "connection refused");
    assert_eq!(view.error.as_deref(), Some("connection refused"));
    assert_eq!(view.status, 500);
}

#[test]
fn catalogue_leaves_out_some_languages() {
    assert_eq!(catalogue_language("es.json").as_deref(), Some("es"));
    assert_eq!(catalogue_language("pt_BR.json").as_deref(), Some("pt_BR"));
    assert_eq!(catalogue_language("en").as_deref(), Some("en"));
    for ignored in ["lt", "ar", "uk", "ru", "cy", "sr_Latn", "sk", "pl", "cs", "ga"] {
        assert_eq!(catalogue_language(&format!("{}.json", ignored)), None);
    }
    assert_eq!(catalogue_language("r.jsonu.json"), None);
    assert_eq!(catalogue_language("e.jsons.json.json").as_deref(), Some("es"));
}

#[test]
fn results_are_joined_or_fail_with_the_first_error() {
    let all: Vec<Result<u8, ApiError>> = vec![Ok(1), Ok(2), Ok(3)];
    assert_eq!(collect_results(all).unwrap(), vec![1, 2, 3]);
    let none: Vec<Result<u8, ApiError>> = vec![];
    assert_eq!(collect_results(none).unwrap(), Vec::<u8>::new());
    let some: Vec<Result<u8, ApiError>> = vec![
        Ok(1),
        Err(ApiError::Upstream("first".to_string())),
        Ok(3),
        Err(ApiError::Upstream("second".to_string())),
    ];
    assert!(matches!(collect_results(some), Err(ApiError::Upstream(token)) if token == "first"));
}
