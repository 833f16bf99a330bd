use windmill_variables::json::{replace_path, Json, Member};
use windmill_variables::naming::{read_scope, referenced_path, var_reference, write_scope};
use windmill_variables::sql::{render_update, Assignment, UpdateStatement};
use windmill_variables::text::{debug_text, decimal_i32, second_part, starts_with, strip_prefix};

fn s(x: &str) -> String {
    x.to_string()
}

fn resource() -> Json {
    Json::Object(vec![
        Member { key: s("token"), value: Json::Str(s("$var:u/admin/old")) },
        Member { key: s("host"), value: Json::Number(s("5432")) },
        Member {
            key: s("list"),
            value: Json::Array(vec![
                Json::Str(s("$var:u/admin/old")),
                Json::Str(s("$var:u/admin/other")),
                Json::Bool(true),
                Json::Null,
            ]),
        },
        Member { key: s("$var:u/admin/old"), value: Json::Str(s("plain")) },
    ])
}

#[test]
fn replace_path_rewrites_every_matching_string() {
    let r = replace_path(resource(), "$var:u/admin/old", "$var:u/admin/new");
    let expected = Json::Object(vec![
        Member { key: s("token"), value: Json::Str(s("$var:u/admin/new")) },
        Member { key: s("host"), value: Json::Number(s("5432")) },
        Member {
            key: s("list"),
            value: Json::Array(vec![
                Json::Str(s("$var:u/admin/new")),
                Json::Str(s("$var:u/admin/other")),
                Json::Bool(true),
                Json::Null,
            ]),
        },
        // keys are never rewritten
        Member { key: s("$var:u/admin/old"), value: Json::Str(s("plain")) },
    ]);
    assert_eq!(r, expected);
}

#[test]
fn replace_path_to_itself_is_identity() {
    assert_eq!(replace_path(resource(), "$var:u/admin/old", "$var:u/admin/old"), resource());
}

#[test]
fn replace_path_back_undoes_rename() {
    let once = replace_path(resource(), "$var:u/admin/old", "$var:u/admin/new");
    let back = replace_path(once, "$var:u/admin/new", "$var:u/admin/old");
    assert_eq!(back, resource());
}

#[test]
fn replace_path_on_scalar_string() {
    assert_eq!(replace_path(Json::Str(s("a")), "a", "b"), Json::Str(s("b")));
    assert_eq!(replace_path(Json::Str(s("ab")), "a", "b"), Json::Str(s("ab")));
    assert_eq!(replace_path(Json::Null, "a", "b"), Json::Null);
}

#[test]
fn references_resolve_to_their_path() {
    let r = var_reference("f/team/db");
    assert_eq!(r, "$var:f/team/db");
    assert_eq!(referenced_path(&r), Some(s("f/team/db")));
    assert_eq!(referenced_path("f/team/db"), None);
    assert_eq!(referenced_path("$var:"), Some(s("")));
}

#[test]
fn scopes_name_the_path() {
    assert_eq!(read_scope("u/a/b"), "variables:read:u/a/b");
    assert_eq!(write_scope("u/a/b"), "variables:write:u/a/b");
}

#[test]
fn prefix_helpers() {
    assert!(starts_with("f/x", "f/"));
    assert!(!starts_with("u/x", "f/"));
    assert!(!starts_with("f", "f/"));
    assert_eq!(strip_prefix("héllo", "hé"), Some(s("llo")));
    assert_eq!(strip_prefix("hello", "x"), None);
}

#[test]
fn second_part_is_what_split_nth_gives() {
    for p in ["f/team/db", "f/team", "f/", "abc", "a//b", "/x/y", "é/ü/ö"] {
        assert_eq!(second_part(p), p.split('/').nth(1).map(|x| x.to_string()), "{}", p);
    }
}

#[test]
fn decimal_matches_to_string() {
    for n in [0, 7, 10, 42, -1, -7, 1234567, i32::MAX, i32::MIN] {
        assert_eq!(decimal_i32(n), n.to_string());
    }
}

#[test]
fn debug_text_quotes_and_escapes() {
    assert_eq!(debug_text("u/a/b"), "\"u/a/b\"");
    assert_eq!(debug_text("a\"b"), "\"a\\\"b\"");
}

fn assign(f: &str, v: &str) -> Assignment {
    Assignment { field: s(f), value: s(v) }
}

#[test]
fn render_update_writes_the_statement() {
    let stmt = UpdateStatement {
        table: s("variable"),
        conditions: vec![assign("path", "u/a/x"), assign("workspace_id", "w")],
        sets: vec![assign("path", "u/a/new"), assign("value", "it's")],
        returning: s("path"),
    };
    assert_eq!(
        render_update(&stmt),
        Ok(s("UPDATE variable SET path = 'u/a/new', value = 'it''s' WHERE (path = 'u/a/x') AND (workspace_id = 'w') RETURNING path;"))
    );
}

#[test]
fn render_update_with_one_condition() {
    let stmt = UpdateStatement {
        table: s("t"),
        conditions: vec![assign("id", "o'k")],
        sets: vec![assign("a", "1")],
        returning: s("id"),
    };
    assert_eq!(render_update(&stmt), Ok(s("UPDATE t SET a = '1' WHERE id = 'o''k' RETURNING id;")));
}

#[test]
fn render_update_refuses_empty_statements() {
    let no_sets = UpdateStatement { table: s("variable"), conditions: vec![], sets: vec![], returning: s("path") };
    assert_eq!(render_update(&no_sets), Err(s("No set fields")));
    let no_table = UpdateStatement { table: s(""), conditions: vec![], sets: vec![assign("a", "b")], returning: s("path") };
    assert_eq!(render_update(&no_table), Err(s("No table name")));
}
