use authly::cors::CorsPolicy;
use authly::origins::AllowedOrigins;

fn list(items: &[&str]) -> Vec<String> {
    items.iter().map(|s| s.to_string()).collect()
}

#[test]
fn site_policy_lists_what_it_allows() {
    let origins = list(&["http://192.168.178.58", "https://example.com"]);
    let policy = CorsPolicy::site(AllowedOrigins::from_list(origins).unwrap());
    assert_eq!(policy.origins(), &list(&["http://192.168.178.58", "https://example.com"]));
    assert_eq!(policy.methods(), &list(&["GET", "POST", "PUT"]));
    assert_eq!(policy.headers(), &list(&["authorization"]));
}

#[test]
fn site_policy_without_origins_keeps_methods_and_headers() {
    let policy = CorsPolicy::site(AllowedOrigins::new());
    assert!(policy.origins().is_empty());
    assert_eq!(policy.methods(), &list(&["GET", "POST", "PUT"]));
    assert_eq!(policy.headers(), &list(&["authorization"]));
}
