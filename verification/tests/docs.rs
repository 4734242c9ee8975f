use echidna::commands::docs::{
    build_url, search_address, DocsArgs, API_DOCS_URL, DEV_DOCS_URL, USER_DOCS_URL,
};

#[test]
fn test_user_docs_url() {
    let args = DocsArgs { dev: false, api: false, query: None };
    assert_eq!(build_url(&args), USER_DOCS_URL);
}

#[test]
fn test_dev_docs_url() {
    let args = DocsArgs { dev: true, api: false, query: None };
    assert_eq!(build_url(&args), DEV_DOCS_URL);
}

#[test]
fn test_api_docs_url() {
    let args = DocsArgs { dev: false, api: true, query: None };
    assert_eq!(build_url(&args), API_DOCS_URL);
}

#[test]
fn test_api_takes_precedence_over_dev() {
    let args = DocsArgs { dev: true, api: true, query: None };
    assert_eq!(build_url(&args), API_DOCS_URL);
}

#[test]
fn test_search_user_docs() {
    let args = DocsArgs { dev: false, api: false, query: Some("color".to_string()) };
    let url = build_url(&args);
    assert!(url.contains("google.com/search"));
    assert!(url.contains("site:cgl.ucsf.edu/chimerax/docs/user"));
    assert!(url.contains("color"));
}

#[test]
fn test_search_dev_docs() {
    let args = DocsArgs { dev: true, api: false, query: Some("bundle".to_string()) };
    let url = build_url(&args);
    assert!(url.contains("google.com/search"));
    assert!(url.contains("site:cgl.ucsf.edu/chimerax/docs/devel"));
    assert!(url.contains("bundle"));
}

#[test]
fn test_search_query_encoding() {
    let args = DocsArgs { dev: false, api: false, query: Some("open file".to_string()) };
    let url = build_url(&args);
    assert!(url.contains("open%20file"));
}

#[test]
fn search_url_is_exact() {
    let args = DocsArgs { dev: false, api: true, query: Some("a b/ü~_.-".to_string()) };
    assert_eq!(
        build_url(&args),
        "https://www.google.com/search?q=site:cgl.ucsf.edu/chimerax/docs/devel+a%20b%2F%C3%BC~_.-"
    );
    assert_eq!(
        search_address(false, false, "x"),
        "https://www.google.com/search?q=site:cgl.ucsf.edu/chimerax/docs/user+x"
    );
    let empty = DocsArgs { dev: false, api: false, query: Some(String::new()) };
    assert_eq!(
        build_url(&empty),
        "https://www.google.com/search?q=site:cgl.ucsf.edu/chimerax/docs/user+"
    );
}
