use user_directory::route::{match_route, method_named, resolve, unescape, Method, Route};

fn username_of(route: Option<Route>) -> (String, &'static str) {
    match route {
        Some(Route::GetByUsername { username }) => (username, "get"),
        Some(Route::Update { username }) => (username, "update"),
        Some(Route::Delete { username }) => (username, "delete"),
        other => panic!("expected a route with a username, got {:?}", other),
    }
}

#[test]
fn create_is_post_add_user() {
    assert!(matches!(resolve(Method::Post, "/add_user"), Some(Route::Create)));
    assert!(resolve(Method::Get, "/add_user").is_none());
    assert!(resolve(Method::Put, "/add_user").is_none());
}

#[test]
fn lookup_is_get_get_user_with_a_username() {
    assert_eq!(
        username_of(resolve(Method::Get, "/get_user/ada")),
        ("ada".to_string(), "get")
    );
    assert!(resolve(Method::Post, "/get_user/ada").is_none());
    assert!(resolve(Method::Delete, "/get_user/ada").is_none());
}

#[test]
fn listing_is_get_get_all_users() {
    assert!(matches!(resolve(Method::Get, "/get_all_users"), Some(Route::ListAll)));
    assert!(resolve(Method::Post, "/get_all_users").is_none());
}

#[test]
fn update_is_put_or_patch() {
    assert_eq!(
        username_of(resolve(Method::Put, "/update/ada")),
        ("ada".to_string(), "update")
    );
    assert_eq!(
        username_of(resolve(Method::Patch, "/update/ada")),
        ("ada".to_string(), "update")
    );
    assert!(resolve(Method::Get, "/update/ada").is_none());
    assert!(resolve(Method::Post, "/update/ada").is_none());
}

#[test]
fn delete_is_delete_or_get() {
    assert_eq!(
        username_of(resolve(Method::Delete, "/delete_user/ada")),
        ("ada".to_string(), "delete")
    );
    assert_eq!(
        username_of(resolve(Method::Get, "/delete_user/ada")),
        ("ada".to_string(), "delete")
    );
    assert!(resolve(Method::Post, "/delete_user/ada").is_none());
    assert!(resolve(Method::Get, "/delete/ada").is_none());
}

#[test]
fn root_is_the_probe() {
    assert!(matches!(resolve(Method::Get, "/"), Some(Route::Probe)));
    assert!(resolve(Method::Post, "/").is_none());
}

#[test]
fn username_must_be_one_segment() {
    assert!(resolve(Method::Get, "/get_user/").is_none());
    assert!(resolve(Method::Get, "/get_user").is_none());
    assert!(resolve(Method::Get, "/get_user/ada/").is_none());
    assert!(resolve(Method::Get, "/get_user/ada/more").is_none());
    assert!(resolve(Method::Put, "/update/").is_none());
    assert!(resolve(Method::Delete, "/delete_user/a/b").is_none());
}

#[test]
fn username_is_matched_as_written() {
    assert_eq!(
        username_of(match_route(Method::Get, "/get_user/Ada%20L")).0,
        "Ada%20L"
    );
    assert_eq!(username_of(match_route(Method::Put, "/update/a%2Fb")), ("a%2Fb".to_string(), "update"));
    assert_eq!(username_of(match_route(Method::Get, "/get_user/zoë")).0, "zoë");
    assert!(match_route(Method::Get, "/get_user/a/b").is_none());
    assert!(match_route(Method::Post, "/get_user/ada").is_none());
    assert!(matches!(match_route(Method::Post, "/add_user"), Some(Route::Create)));
}

#[test]
fn username_is_decoded_after_the_match() {
    assert_eq!(username_of(resolve(Method::Get, "/get_user/Ada%20L")).0, "Ada L");
    assert_eq!(username_of(resolve(Method::Get, "/get_user/zo%C3%AB")).0, "zoë");
    assert_eq!(username_of(resolve(Method::Put, "/update/a%2Fb")), ("a/b".to_string(), "update"));
    assert_eq!(
        username_of(resolve(Method::Delete, "/delete_user/a%2fb%25")),
        ("a/b%".to_string(), "delete")
    );
    assert_eq!(username_of(resolve(Method::Get, "/get_user/zoë")).0, "zoë");
    assert_eq!(username_of(resolve(Method::Get, "/get_user/get_user")).0, "get_user");
    assert_eq!(username_of(resolve(Method::Get, "/get_user/a+b")).0, "a+b");
}

#[test]
fn unescape_leaves_what_is_no_encoding() {
    assert_eq!(unescape("ada".to_string()), "ada");
    assert_eq!(unescape(String::new()), "");
    assert_eq!(unescape("100%".to_string()), "100%");
    assert_eq!(unescape("%zz%4".to_string()), "%zz%4");
    assert_eq!(unescape("%41%zz".to_string()), "A%zz");
    assert_eq!(unescape("%FF".to_string()), "\u{FFFD}");
    assert_eq!(unescape("%e2%82%ac".to_string()), "€");
}

#[test]
fn unknown_paths_and_methods_have_no_route() {
    assert!(resolve(Method::Get, "").is_none());
    assert!(resolve(Method::Get, "/users").is_none());
    assert!(resolve(Method::Get, "/add_user/").is_none());
    assert!(resolve(Method::Get, "/get_all_users/x").is_none());
    assert!(resolve(Method::Get, "get_user/ada").is_none());
    assert!(resolve(Method::Other, "/get_user/ada").is_none());
    assert!(resolve(Method::Other, "/").is_none());
}

#[test]
fn methods_are_read_by_their_names_in_capitals() {
    assert_eq!(method_named("GET"), Method::Get);
    assert_eq!(method_named("POST"), Method::Post);
    assert_eq!(method_named("PUT"), Method::Put);
    assert_eq!(method_named("PATCH"), Method::Patch);
    assert_eq!(method_named("DELETE"), Method::Delete);
    assert_eq!(method_named("HEAD"), Method::Other);
    assert_eq!(method_named("get"), Method::Other);
    assert_eq!(method_named(""), Method::Other);
    assert_eq!(method_named("GETS"), Method::Other);
}
