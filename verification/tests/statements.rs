use dbclient::db::sql::{
    count_statement, delete_statement, insert_statement, mark_of, page_statement, quote_literal,
    quote_name, update_statement,
};
use dbclient::models::connection::DatabaseType;

const PG: DatabaseType = DatabaseType::PostgreSQL;
const MY: DatabaseType = DatabaseType::MySQL;

fn list(items: &[&str]) -> Vec<String> {
    items.iter().map(|s| s.to_string()).collect()
}

#[test]
fn names_are_quoted_with_the_engine_mark() {
    assert_eq!(mark_of(PG), '"');
    assert_eq!(mark_of(MY), '`');
    assert_eq!(quote_name(PG, "users"), "\"users\"");
    assert_eq!(quote_name(MY, "users"), "`users`");
    assert_eq!(quote_name(PG, ""), "\"\"");
    assert_eq!(quote_name(MY, ""), "``");
}

#[test]
fn marks_inside_a_name_are_doubled() {
    assert_eq!(quote_name(PG, "a\"b"), "\"a\"\"b\"");
    assert_eq!(quote_name(PG, "\""), "\"\"\"\"");
    assert_eq!(quote_name(PG, "a`b"), "\"a`b\"");
    assert_eq!(quote_name(MY, "a`b"), "`a``b`");
    assert_eq!(quote_name(MY, "a\"b"), "`a\"b`");
    assert_eq!(quote_name(MY, "``"), "``````");
    assert_eq!(quote_name(PG, "x\"; DROP TABLE t; --"), "\"x\"\"; DROP TABLE t; --\"");
}

#[test]
fn names_keep_other_characters() {
    assert_eq!(quote_name(PG, "Ünï çødé 表"), "\"Ünï çødé 表\"");
    assert_eq!(quote_name(MY, "a'b\\c"), "`a'b\\c`");
}

#[test]
fn literals_double_the_apostrophe() {
    assert_eq!(quote_literal(PG, "abc"), "'abc'");
    assert_eq!(quote_literal(PG, ""), "''");
    assert_eq!(quote_literal(PG, "O'Brien"), "'O''Brien'");
    assert_eq!(quote_literal(MY, "O'Brien"), "'O''Brien'");
    assert_eq!(quote_literal(PG, "'"), "''''");
    assert_eq!(quote_literal(PG, "'; DROP TABLE t; --"), "'''; DROP TABLE t; --'");
}

#[test]
fn backslash_is_doubled_where_the_engine_escapes_with_it() {
    assert_eq!(quote_literal(PG, "a\\b"), "'a\\b'");
    assert_eq!(quote_literal(MY, "a\\b"), "'a\\\\b'");
    assert_eq!(quote_literal(MY, "\\'"), "'\\\\'''");
    assert_eq!(quote_literal(PG, "\\'"), "'\\'''");
    assert_eq!(quote_literal(MY, "é\"`"), "'é\"`'");
}

#[test]
fn page_statement_text() {
    assert_eq!(
        page_statement(PG, "public", "users", 50, 100),
        "SELECT * FROM \"public\".\"users\" LIMIT 50 OFFSET 100"
    );
    assert_eq!(
        page_statement(MY, "shop", "orders", 0, 0),
        "SELECT * FROM `shop`.`orders` LIMIT 0 OFFSET 0"
    );
    assert_eq!(
        page_statement(PG, "s", "t", i64::MAX, i64::MIN),
        "SELECT * FROM \"s\".\"t\" LIMIT 9223372036854775807 OFFSET -9223372036854775808"
    );
    assert_eq!(page_statement(MY, "s", "t", -1, 7), "SELECT * FROM `s`.`t` LIMIT -1 OFFSET 7");
}

#[test]
fn count_statement_text() {
    assert_eq!(count_statement(PG, "public", "users"), "SELECT COUNT(*) FROM \"public\".\"users\"");
    assert_eq!(count_statement(MY, "a`b", "c"), "SELECT COUNT(*) FROM `a``b`.`c`");
}

#[test]
fn update_statement_text() {
    assert_eq!(
        update_statement(PG, "public", "users", "name", "O'Brien", &list(&["id"]), &list(&["7"])),
        Some("UPDATE \"public\".\"users\" SET \"name\" = 'O''Brien' WHERE \"id\" = '7'".to_string())
    );
    assert_eq!(
        update_statement(
            MY,
            "shop",
            "lines",
            "qty",
            "3",
            &list(&["order_id", "line"]),
            &list(&["10", "2"])
        ),
        Some(
            "UPDATE `shop`.`lines` SET `qty` = '3' WHERE `order_id` = '10' AND `line` = '2'"
                .to_string()
        )
    );
}

#[test]
fn update_with_an_empty_key_has_an_empty_condition() {
    assert_eq!(
        update_statement(PG, "s", "t", "c", "v", &Vec::new(), &Vec::new()),
        Some("UPDATE \"s\".\"t\" SET \"c\" = 'v' WHERE ".to_string())
    );
}

#[test]
fn uneven_keys_give_no_statement() {
    assert_eq!(update_statement(PG, "s", "t", "c", "v", &list(&["a", "b"]), &list(&["1"])), None);
    assert_eq!(update_statement(PG, "s", "t", "c", "v", &list(&["a"]), &list(&["1", "2"])), None);
    assert_eq!(update_statement(MY, "s", "t", "c", "v", &list(&["a"]), &Vec::new()), None);
    assert_eq!(delete_statement(PG, "s", "t", &list(&["a", "b"]), &list(&["1"])), None);
    assert_eq!(delete_statement(MY, "s", "t", &Vec::new(), &list(&["1"])), None);
    assert_eq!(insert_statement(PG, "s", "t", &list(&["a", "b"]), &list(&["1"])), None);
    assert_eq!(insert_statement(MY, "s", "t", &list(&["a"]), &list(&["1", "2"])), None);
}

#[test]
fn insert_statement_text() {
    assert_eq!(
        insert_statement(PG, "public", "users", &list(&["id", "name"]), &list(&["1", "Ann"])),
        Some("INSERT INTO \"public\".\"users\" (\"id\", \"name\") VALUES ('1', 'Ann')".to_string())
    );
    assert_eq!(
        insert_statement(MY, "d", "t", &list(&["a"]), &list(&["x\\y"])),
        Some("INSERT INTO `d`.`t` (`a`) VALUES ('x\\\\y')".to_string())
    );
    assert_eq!(
        insert_statement(PG, "d", "t", &list(&["a", "b", "c"]), &list(&["", "'", "z"])),
        Some("INSERT INTO \"d\".\"t\" (\"a\", \"b\", \"c\") VALUES ('', '''', 'z')".to_string())
    );
    assert_eq!(
        insert_statement(PG, "d", "t", &Vec::new(), &Vec::new()),
        Some("INSERT INTO \"d\".\"t\" () VALUES ()".to_string())
    );
}

#[test]
fn delete_statement_text() {
    assert_eq!(
        delete_statement(PG, "public", "users", &list(&["id"]), &list(&["7"])),
        Some("DELETE FROM \"public\".\"users\" WHERE \"id\" = '7'".to_string())
    );
    assert_eq!(
        delete_statement(MY, "d", "t", &list(&["a", "b", "c"]), &list(&["1", "2", "3"])),
        Some("DELETE FROM `d`.`t` WHERE `a` = '1' AND `b` = '2' AND `c` = '3'".to_string())
    );
    assert_eq!(
        delete_statement(PG, "d", "t", &list(&["k"]), &list(&["' OR '1'='1"])),
        Some("DELETE FROM \"d\".\"t\" WHERE \"k\" = ''' OR ''1''=''1'".to_string())
    );
}
