//! Permissions that users, API keys and tokens carry.

use vstd::prelude::*;
use crate::strings::str_eq;

verus! {

/// A permission in the Wikify application layer.
#[derive(Clone, Copy, Debug, PartialEq, Eq, Structural)]
pub enum Permission {
    Query,
    GenerateWiki,
    DeepResearch,
    Export,
    ManageSession,
    ManageRepository,
    Admin,
}

/// The name of a permission, as its `Debug` form writes it.
pub open spec fn permission_name(p: Permission) -> Seq<char> {
    match p {
        Permission::Query => "Query"@,
        Permission::GenerateWiki => "GenerateWiki"@,
        Permission::DeepResearch => "DeepResearch"@,
        Permission::Export => "Export"@,
        Permission::ManageSession => "ManageSession"@,
        Permission::ManageRepository => "ManageRepository"@,
        Permission::Admin => "Admin"@,
    }
}

/// The permission a name denotes, if it is one.
pub open spec fn parse_permission(s: Seq<char>) -> Option<Permission> {
    if s == "Query"@ {
        Some(Permission::Query)
    } else if s == "GenerateWiki"@ {
        Some(Permission::GenerateWiki)
    } else if s == "DeepResearch"@ {
        Some(Permission::DeepResearch)
    } else if s == "Export"@ {
        Some(Permission::Export)
    } else if s == "ManageSession"@ {
        Some(Permission::ManageSession)
    } else if s == "ManageRepository"@ {
        Some(Permission::ManageRepository)
    } else if s == "Admin"@ {
        Some(Permission::Admin)
    } else {
        None
    }
}

/// The names of a list of permissions.
pub open spec fn permission_names(ps: Seq<Permission>) -> Seq<Seq<char>> {
    ps.map_values(|p: Permission| permission_name(p))
}

impl Permission {
    /// The permission's name.
    pub fn name(&self) -> (s: &'static str)
        ensures
            s@ == permission_name(*self),
    {
        match self {
            Permission::Query => "Query",
            Permission::GenerateWiki => "GenerateWiki",
            Permission::DeepResearch => "DeepResearch",
            Permission::Export => "Export",
            Permission::ManageSession => "ManageSession",
            Permission::ManageRepository => "ManageRepository",
            Permission::Admin => "Admin",
        }
    }

    /// The permission named `s`, if any.
    pub fn parse(s: &str) -> (p: Option<Permission>)
        ensures
            p == parse_permission(s@),
    {
        if str_eq(s, "Query") {
            Some(Permission::Query)
        } else if str_eq(s, "GenerateWiki") {
            Some(Permission::GenerateWiki)
        } else if str_eq(s, "DeepResearch") {
            Some(Permission::DeepResearch)
        } else if str_eq(s, "Export") {
            Some(Permission::Export)
        } else if str_eq(s, "ManageSession") {
            Some(Permission::ManageSession)
        } else if str_eq(s, "ManageRepository") {
            Some(Permission::ManageRepository)
        } else if str_eq(s, "Admin") {
            Some(Permission::Admin)
        } else {
            None
        }
    }
}

/// Reading a permission's name back gives the permission.
pub proof fn law_name_round_trip(p: Permission)
    ensures
        parse_permission(permission_name(p)) == Some(p),
{
    reveal_strlit("Query");
    reveal_strlit("GenerateWiki");
    reveal_strlit("DeepResearch");
    reveal_strlit("Export");
    reveal_strlit("ManageSession");
    reveal_strlit("ManageRepository");
    reveal_strlit("Admin");
    assert("Query"@.len() == 5 && "Admin"@.len() == 5 && "Export"@.len() == 6);
    assert("GenerateWiki"@.len() == 12 && "DeepResearch"@.len() == 12);
    assert("ManageSession"@.len() == 13 && "ManageRepository"@.len() == 16);
    assert("Query"@[0] != "Admin"@[0]);
    assert("GenerateWiki"@[0] != "DeepResearch"@[0]);
}

/// Whether `ps` holds `p`.
pub fn contains_permission(ps: &[Permission], p: Permission) -> (b: bool)
    ensures
        b == ps@.contains(p),
{
    let mut i: usize = 0;
    while i < ps.len()
        invariant
            i <= ps@.len(),
            forall|j: int| 0 <= j < i ==> ps@[j] != p,
        decreases ps@.len() - i,
    {
        if ps[i] == p {
            return true;
        }
        i = i + 1;
    }
    false
}

/// The names of `ps`, in order.
pub fn names_of(ps: &[Permission]) -> (names: Vec<String>)
    ensures
        names@.len() == ps@.len(),
        forall|i: int| 0 <= i < ps@.len() ==> #[trigger] names@[i]@ == permission_name(ps@[i]),
{
    let mut names: Vec<String> = Vec::new();
    let mut i: usize = 0;
    while i < ps.len()
        invariant
            i <= ps@.len(),
            names@.len() == i,
            forall|j: int| 0 <= j < i ==> #[trigger] names@[j]@ == permission_name(ps@[j]),
        decreases ps@.len() - i,
    {
        names.push(crate::strings::owned(ps[i].name()));
        i = i + 1;
    }
    names
}

/// The permissions the names in `names` denote, or `None` when one of
/// them names no permission.
pub fn parse_all(names: &[String]) -> (ps: Option<Vec<Permission>>)
    ensures
        match ps {
            Some(v) => v@.len() == names@.len() && forall|i: int|
                0 <= i < names@.len() ==> parse_permission(#[trigger] names@[i]@) == Some(v@[i]),
            None => exists|i: int|
                0 <= i < names@.len() && parse_permission(#[trigger] names@[i]@) is None,
        },
{
    let mut v: Vec<Permission> = Vec::new();
    let mut i: usize = 0;
    while i < names.len()
        invariant
            i <= names@.len(),
            v@.len() == i,
            forall|j: int| 0 <= j < i ==> parse_permission(#[trigger] names@[j]@) == Some(v@[j]),
        decreases names@.len() - i,
    {
        match Permission::parse(names[i].as_str()) {
            Some(p) => v.push(p),
            None => {
                return None;
            },
        }
        i = i + 1;
    }
    Some(v)
}

/// A copy of `ps`.
pub fn copy_permissions(ps: &[Permission]) -> (r: Vec<Permission>)
    ensures
        r@ == ps@,
{
    let mut r: Vec<Permission> = Vec::new();
    let mut i: usize = 0;
    while i < ps.len()
        invariant
            i <= ps@.len(),
            r@ == ps@.take(i as int),
        decreases ps@.len() - i,
    {
        r.push(ps[i]);
        assert(ps@.take(i + 1) =~= ps@.take(i as int).push(ps@[i as int]));
        i = i + 1;
    }
    assert(ps@.take(ps@.len() as int) =~= ps@);
    r
}

} // verus!
