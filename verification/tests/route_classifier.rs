use rust_server::PolicyGroup;
use rust_server::ProtectionRequirement;
use rust_server::RouteGroup;
use rust_server::classify;
use rust_server::classify_with;
use rust_server::route_table;
use rust_server::str_ends_with;
use rust_server::str_ends_with_any;
use rust_server::str_starts_with;

#[test]
fn posts_root_is_open() {
    assert_eq!(classify("/posts"), ProtectionRequirement::Open);
}

#[test]
fn posts_create_is_protected() {
    assert_eq!(
        classify("/posts/create"),
        ProtectionRequirement::Protected(PolicyGroup::Posts)
    );
}

#[test]
fn posts_by_id_is_open() {
    assert_eq!(classify("/posts/42"), ProtectionRequirement::Open);
}

#[test]
fn posts_update_and_delete_are_protected() {
    assert_eq!(
        classify("/posts/7/update"),
        ProtectionRequirement::Protected(PolicyGroup::Posts)
    );
    assert_eq!(
        classify("/posts/7/delete"),
        ProtectionRequirement::Protected(PolicyGroup::Posts)
    );
}

#[test]
fn users_logout_is_protected() {
    assert_eq!(
        classify("/users/logout"),
        ProtectionRequirement::Protected(PolicyGroup::Users)
    );
}

#[test]
fn users_register_is_open() {
    assert_eq!(classify("/users/register"), ProtectionRequirement::Open);
    assert_eq!(classify("/users/login"), ProtectionRequirement::Open);
    assert_eq!(classify("/users/check-auth"), ProtectionRequirement::Open);
}

#[test]
fn unknown_paths_are_open() {
    assert_eq!(classify("/"), ProtectionRequirement::Open);
    assert_eq!(classify(""), ProtectionRequirement::Open);
    // A protected suffix outside every registered group stays open.
    assert_eq!(classify("/articles/create"), ProtectionRequirement::Open);
    // The group prefix must be at the start of the path.
    assert_eq!(classify("/api/posts/create"), ProtectionRequirement::Open);
}

#[test]
fn prefix_check_is_exact() {
    assert!(str_starts_with("/posts/create", "/posts"));
    assert!(str_starts_with("/posts", "/posts"));
    assert!(!str_starts_with("/post", "/posts"));
    assert!(!str_starts_with("/Posts/create", "/posts"));
    assert!(str_starts_with("anything", ""));
}

#[test]
fn table_classification_matches_the_fixed_classifier() {
    let table = route_table();
    for path in [
        "/posts",
        "/posts/create",
        "/posts/42",
        "/posts/7/update",
        "/users/logout",
        "/users/register",
        "/",
        "/articles/create",
    ] {
        assert_eq!(classify_with(&table, path), classify(path));
    }
}

#[test]
fn a_new_group_extends_the_table_without_new_logic() {
    let mut table = route_table();
    table.push(RouteGroup {
        group: PolicyGroup::Users,
        prefix: "/admin",
        suffixes: vec!["/purge"],
    });
    assert_eq!(
        classify_with(&table, "/admin/cache/purge"),
        ProtectionRequirement::Protected(PolicyGroup::Users)
    );
    assert_eq!(classify_with(&table, "/admin/cache"), ProtectionRequirement::Open);
    // Existing groups are untouched.
    assert_eq!(
        classify_with(&table, "/posts/create"),
        ProtectionRequirement::Protected(PolicyGroup::Posts)
    );
}

#[test]
fn the_first_matching_prefix_decides() {
    let table = vec![
        RouteGroup { group: PolicyGroup::Posts, prefix: "/x", suffixes: vec![] },
        RouteGroup { group: PolicyGroup::Users, prefix: "/x", suffixes: vec!["/y"] },
    ];
    // The first "/x" group has no protected suffixes, and it shadows the
    // second.
    assert_eq!(classify_with(&table, "/x/y"), ProtectionRequirement::Open);
}

#[test]
fn ends_with_any_checks_each_suffix() {
    let suffixes = vec!["/a", "/b"];
    assert!(str_ends_with_any("path/a", &suffixes));
    assert!(str_ends_with_any("path/b", &suffixes));
    assert!(!str_ends_with_any("path/c", &suffixes));
    assert!(!str_ends_with_any("", &suffixes));
}

#[test]
fn suffix_check_is_exact() {
    assert!(str_ends_with("/posts/create", "/create"));
    assert!(!str_ends_with("/posts/created", "/create"));
    assert!(!str_ends_with("ate", "/create"));
    assert!(str_ends_with("anything", ""));
}
