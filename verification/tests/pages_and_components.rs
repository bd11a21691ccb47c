use asset_portal::components::{list_navbar, list_search_bar, Link, LinkState};
use asset_portal::errors::AddError;
use asset_portal::pages::{add_asset_outcome, login_page};
use asset_portal::seeds::{
    admin_roles, admin_user, seed_asset, test_user_role_id, seed_permissions, seed_role_permissions, seed_roles,
    seed_test_roles, seed_test_user,
};

fn parts(l: &Link) -> (&'static str, String, String) {
    match l {
        Link::Active { name, url } => ("active", name.clone(), url.clone()),
        Link::Disabled { name, url } => ("disabled", name.clone(), url.clone()),
        Link::Normal { name, url } => ("normal", name.clone(), url.clone()),
    }
}

#[test]
fn link_constructor_sets_state() {
    assert_eq!(
        parts(&Link::new(LinkState::Disabled, "Rooms", "/web/home")),
        ("disabled", "Rooms".to_string(), "/web/home".to_string())
    );
}

#[test]
fn list_page_navbar() {
    let n = list_navbar();
    assert_eq!(n.username, "admin");
    assert_eq!(n.email, "admin@richmond-county.k12.va.us");
    assert!(n.is_admin);
    let links: Vec<_> = n.links.iter().map(parts).collect();
    assert_eq!(
        links,
        vec![
            ("active", "Asset-Items".to_string(), "/web/list".to_string()),
            ("normal", "User-Items".to_string(), "/web/home".to_string()),
            ("disabled", "Schools".to_string(), "/web/home".to_string()),
            ("disabled", "Rooms".to_string(), "/web/home".to_string()),
        ]
    );
}

#[test]
fn list_page_search_bar() {
    let s = list_search_bar();
    assert_eq!(s.title, "Assets");
    assert_eq!(s.form_url, "/web/list");
    assert!(s.search_text.is_none());
    let (selected, filters) = s.search_filter.unwrap();
    assert!(selected.is_none());
    assert_eq!(filters, vec!["all", "assets", "model", "serial #"]);
    let links: Vec<_> = s.links.iter().map(parts).collect();
    assert_eq!(
        links,
        vec![
            ("normal", "Add".to_string(), "/web/home".to_string()),
            ("disabled", "Upload".to_string(), "/web/home".to_string()),
        ]
    );
}

#[test]
fn login_page_has_the_form() {
    let page = login_page();
    assert!(page.starts_with("<!DOCTYPE html>\n        <html lang=\"en\">"));
    assert!(page.contains("<form action=\"/login\" method=\"post\">  \n"));
    assert!(page.ends_with("</html>"));
}

#[test]
fn adding_an_asset_succeeds() {
    let o = add_asset_outcome(Ok(()));
    assert_eq!(o.notice, "Asset successfully added.");
    assert_eq!(o.location, "/web/assets");
    assert!(o.error.is_none());
}

#[test]
fn adding_an_asset_fails() {
    let o = add_asset_outcome(Err(vec!["Execution Error: duplicate".to_string()]));
    assert_eq!(o.notice, "Error: Could Not Add Asset.");
    assert_eq!(o.location, "/web/assets");
    match o.error {
        Some(AddError::UnexpectedError(c)) => assert_eq!(c, vec!["Execution Error: duplicate"]),
        _ => panic!("expected an unexpected error"),
    }
}

#[test]
fn seeded_rows() {
    let roles = vec!["admin", "user_read", "user_edit", "user_create", "user_apply_action"];
    assert_eq!(seed_roles(), roles);
    assert_eq!(admin_roles(), roles);
    let (name, hash) = admin_user();
    assert_eq!(name, "admin");
    assert!(hash.starts_with("$argon2id$v=19$"));
    let pair = |a: &str, b: &str| (a.to_string(), b.to_string());
    assert_eq!(
        seed_test_roles(),
        vec![pair("admin", "default admin role"), pair("teacher", "teacher role has read only access")]
    );
    assert_eq!(seed_test_user(), pair("admin", "admin"));
    assert_eq!(
        seed_permissions(),
        vec![
            pair("read_assets", "Permission to read asset items group"),
            pair("write_assets", "Permission to write asset items group"),
            pair("edit_assets", "Permission to edit asset items group"),
        ]
    );
    assert_eq!(seed_asset(), pair("RHS-LAP-400", "Dell Laptop"));
}

#[test]
fn seeded_grants_name_seeded_rows() {
    let roles: Vec<String> = seed_test_roles().into_iter().map(|r| r.0).collect();
    let perms: Vec<String> = seed_permissions().into_iter().map(|p| p.0).collect();
    let grants = seed_role_permissions();
    assert_eq!(grants.len(), 4);
    for (role, perm) in grants {
        assert!(roles.contains(&role));
        assert!(perms.contains(&perm));
    }
}

#[test]
fn test_user_gets_the_first_role_of_its_name() {
    let stored = vec![("admin".to_string(), 3), ("teacher".to_string(), 4), ("admin".to_string(), 9)];
    assert_eq!(test_user_role_id(&stored, "admin"), Some(3));
    assert_eq!(test_user_role_id(&stored, "teacher"), Some(4));
    assert_eq!(test_user_role_id(&stored, "janitor"), None);
    assert_eq!(test_user_role_id(&vec![], "admin"), None);
}
