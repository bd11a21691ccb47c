//! The rows the database is seeded with: roles, the administrator and the
//! roles granted to it, test roles and users, permissions, the permissions
//! of each test role, and a first asset.

use vstd::prelude::*;
use vstd::string::StringExecFns;
use crate::errors::texts;

verus! {

/// The character sequences of a sequence of string pairs.
pub open spec fn pair_texts(v: Seq<(String, String)>) -> Seq<(Seq<char>, Seq<char>)> {
    v.map_values(|p: (String, String)| (p.0@, p.1@))
}

/// The ids of the seeded user roles.
pub open spec fn seeded_roles() -> Seq<Seq<char>> {
    seq!["admin"@, "user_read"@, "user_edit"@, "user_create"@, "user_apply_action"@]
}

/// The seeded test roles: name and description.
pub open spec fn seeded_test_roles() -> Seq<(Seq<char>, Seq<char>)> {
    seq![
        ("admin"@, "default admin role"@),
        ("teacher"@, "teacher role has read only access"@),
    ]
}

/// The seeded test user: its name and the name of its test role.
pub open spec fn seeded_test_user() -> (Seq<char>, Seq<char>) {
    ("admin"@, "admin"@)
}

/// The seeded permissions: name and description.
pub open spec fn seeded_permissions() -> Seq<(Seq<char>, Seq<char>)> {
    seq![
        ("read_assets"@, "Permission to read asset items group"@),
        ("write_assets"@, "Permission to write asset items group"@),
        ("edit_assets"@, "Permission to edit asset items group"@),
    ]
}

/// The seeded grants of a permission to a test role: role name and
/// permission name.
pub open spec fn seeded_role_permissions() -> Seq<(Seq<char>, Seq<char>)> {
    seq![
        ("admin"@, "read_assets"@),
        ("admin"@, "write_assets"@),
        ("admin"@, "edit_assets"@),
        ("teacher"@, "read_assets"@),
    ]
}

fn strings_of(a: &str, b: &str) -> (r: (String, String))
    ensures
        r.0@ == a@,
        r.1@ == b@,
{
    (String::from_str(a), String::from_str(b))
}

/// The ids of the user roles the database is seeded with.
pub fn seed_roles() -> (r: Vec<String>)
    ensures
        texts(r@) == seeded_roles(),
{
    let mut r: Vec<String> = Vec::new();
    r.push(String::from_str("admin"));
    r.push(String::from_str("user_read"));
    r.push(String::from_str("user_edit"));
    r.push(String::from_str("user_create"));
    r.push(String::from_str("user_apply_action"));
    proof {
        assert(texts(r@) =~= seeded_roles());
    }
    r
}

/// The roles granted to the administrator: every seeded role.
pub fn admin_roles() -> (r: Vec<String>)
    ensures
        texts(r@) == seeded_roles(),
{
    seed_roles()
}

/// The seeded administrator: user name and password hash.
pub fn admin_user() -> (r: (String, String))
    ensures
        r.0@ == "admin"@,
        r.1@
            == "$argon2id$v=19$m=15000,t=2,p=1$OEx/rcq+3ts//WUDzGNl2g$Am8UFBA4w5NJEmAtquGvBmAlu92q/VQcaoL5AyJPfc8"@,
{
    strings_of(
        "admin",
        "$argon2id$v=19$m=15000,t=2,p=1$OEx/rcq+3ts//WUDzGNl2g$Am8UFBA4w5NJEmAtquGvBmAlu92q/VQcaoL5AyJPfc8",
    )
}

/// The test roles the database is seeded with.
pub fn seed_test_roles() -> (r: Vec<(String, String)>)
    ensures
        pair_texts(r@) == seeded_test_roles(),
{
    let mut r: Vec<(String, String)> = Vec::new();
    r.push(strings_of("admin", "default admin role"));
    r.push(strings_of("teacher", "teacher role has read only access"));
    proof {
        assert(pair_texts(r@) =~= seeded_test_roles());
    }
    r
}

/// The seeded test user: its name and the name of its test role.
pub fn seed_test_user() -> (r: (String, String))
    ensures
        (r.0@, r.1@) == seeded_test_user(),
{
    strings_of("admin", "admin")
}

/// The id under which the test user's role was stored: that of the first
/// stored test role named `role_name`, if one is; `stored` lists each
/// stored test role's name with the id the database gave it, in the order
/// of insertion.
pub fn test_user_role_id(stored: &Vec<(String, i32)>, role_name: &str) -> (r: Option<i32>)
    ensures
        r matches Some(id) ==> exists|i: int|
            0 <= i < stored@.len() && #[trigger] stored@[i].0@ == role_name@ && stored@[i].1 == id
                && forall|j: int| 0 <= j < i ==> #[trigger] stored@[j].0@ != role_name@,
        r is None ==> forall|i: int| 0 <= i < stored@.len() ==> #[trigger] stored@[i].0@ != role_name@,
{
    let key = String::from_str(role_name);
    let mut i: usize = 0;
    while i < stored.len()
        invariant
            i <= stored@.len(),
            key@ == role_name@,
            forall|j: int| 0 <= j < i ==> #[trigger] stored@[j].0@ != role_name@,
        decreases stored.len() - i,
    {
        if stored[i].0 == key {
            proof {
                assert(stored@[i as int].0@ == role_name@);
            }
            return Some(stored[i].1);
        }
        i = i + 1;
    }
    None
}

/// The permissions the database is seeded with.
pub fn seed_permissions() -> (r: Vec<(String, String)>)
    ensures
        pair_texts(r@) == seeded_permissions(),
{
    let mut r: Vec<(String, String)> = Vec::new();
    r.push(strings_of("read_assets", "Permission to read asset items group"));
    r.push(strings_of("write_assets", "Permission to write asset items group"));
    r.push(strings_of("edit_assets", "Permission to edit asset items group"));
    proof {
        assert(pair_texts(r@) =~= seeded_permissions());
    }
    r
}

/// The permissions granted to each seeded test role.
pub fn seed_role_permissions() -> (r: Vec<(String, String)>)
    ensures
        pair_texts(r@) == seeded_role_permissions(),
{
    let mut r: Vec<(String, String)> = Vec::new();
    r.push(strings_of("admin", "read_assets"));
    r.push(strings_of("admin", "write_assets"));
    r.push(strings_of("admin", "edit_assets"));
    r.push(strings_of("teacher", "read_assets"));
    proof {
        assert(pair_texts(r@) =~= seeded_role_permissions());
    }
    r
}

/// The asset the database is seeded with: name and description.
pub fn seed_asset() -> (r: (String, String))
    ensures
        r.0@ == "RHS-LAP-400"@,
        r.1@ == "Dell Laptop"@,
{
    strings_of("RHS-LAP-400", "Dell Laptop")
}

/// A seeded test role has this name.
pub open spec fn is_seeded_test_role(name: Seq<char>) -> bool {
    exists|t: int| 0 <= t < seeded_test_roles().len() && #[trigger] seeded_test_roles()[t].0 == name
}

/// A seeded permission has this name.
pub open spec fn is_seeded_permission(name: Seq<char>) -> bool {
    exists|p: int| 0 <= p < seeded_permissions().len() && #[trigger] seeded_permissions()[p].0 == name
}

/// Every seeded grant names a seeded test role and a seeded permission, and
/// the seeded test user's role is a seeded test role, so that the foreign
/// keys of the grants and test user tables hold.
pub proof fn lemma_grants_name_seeded_rows()
    ensures
        is_seeded_test_role(seeded_test_user().1),
        forall|g: int|
            0 <= g < seeded_role_permissions().len() ==> is_seeded_test_role(
                #[trigger] seeded_role_permissions()[g].0,
            ) && is_seeded_permission(seeded_role_permissions()[g].1),
{
    assert forall|g: int| 0 <= g < seeded_role_permissions().len() implies is_seeded_test_role(
        #[trigger] seeded_role_permissions()[g].0,
    ) && is_seeded_permission(seeded_role_permissions()[g].1) by {
        let t: int = if g < 3 {
            0
        } else {
            1
        };
        let p: int = if g == 1 {
            1
        } else if g == 2 {
            2
        } else {
            0
        };
        assert(seeded_test_roles()[t].0 == seeded_role_permissions()[g].0);
        assert(seeded_permissions()[p].0 == seeded_role_permissions()[g].1);
    }
    assert(seeded_test_roles()[0].0 == "admin"@);
}

/// The seeded keys are distinct: role ids, test role names and permission
/// names, so that the primary keys hold.
pub proof fn lemma_seeded_keys_distinct()
    ensures
        forall|i: int, j: int|
            0 <= i < j < seeded_roles().len() ==> seeded_roles()[i] != seeded_roles()[j],
        forall|i: int, j: int|
            0 <= i < j < seeded_test_roles().len() ==> seeded_test_roles()[i].0
                != seeded_test_roles()[j].0,
        forall|i: int, j: int|
            0 <= i < j < seeded_permissions().len() ==> seeded_permissions()[i].0
                != seeded_permissions()[j].0,
{
    reveal_strlit("admin");
    reveal_strlit("user_read");
    reveal_strlit("user_edit");
    reveal_strlit("user_create");
    reveal_strlit("user_apply_action");
    reveal_strlit("teacher");
    reveal_strlit("read_assets");
    reveal_strlit("write_assets");
    reveal_strlit("edit_assets");
    assert("admin"@.len() == 5);
    assert("user_read"@.len() == 9);
    assert("user_edit"@.len() == 9);
    assert("user_create"@.len() == 11);
    assert("user_apply_action"@.len() == 17);
    assert("teacher"@.len() == 7);
    assert("user_read"@[5] != "user_edit"@[5]);
    assert("read_assets"@[0] != "edit_assets"@[0]);
}

} // verus!
