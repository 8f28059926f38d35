use wikify_web::permissions::{contains_permission, names_of, parse_all, Permission};

#[test]
fn names_round_trip() {
    for p in [
        Permission::Query,
        Permission::GenerateWiki,
        Permission::DeepResearch,
        Permission::Export,
        Permission::ManageSession,
        Permission::ManageRepository,
        Permission::Admin,
    ] {
        assert_eq!(Permission::parse(p.name()), Some(p));
    }
    assert_eq!(Permission::parse("admin"), None);
}

#[test]
fn lists_of_permissions() {
    let ps = vec![Permission::Query, Permission::Export];
    assert!(contains_permission(&ps, Permission::Export));
    assert!(!contains_permission(&ps, Permission::Admin));
    let names = names_of(&ps);
    assert_eq!(names, vec!["Query".to_string(), "Export".to_string()]);
    assert_eq!(parse_all(&names), Some(ps));
    assert_eq!(parse_all(&["Query".to_string(), "Nope".to_string()]), None);
}
