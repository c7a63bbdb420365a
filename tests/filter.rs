use fire_postgres::data::{ColumnData, Text};
use fire_postgres::filter::{Filter, Operator, Param, WhereFilter};
use fire_postgres::uid::UniqueId;

fn now_secs() -> u64 {
    std::time::SystemTime::now()
        .duration_since(std::time::UNIX_EPOCH)
        .unwrap()
        .as_secs()
}

fn new_id() -> UniqueId {
    UniqueId::new(now_secs()).unwrap()
}

#[test]
fn whr_test_simple_eq() {
    let id = new_id();
    let id2 = new_id();
    let mut query = Filter::new();
    query.push_comparison(Operator::Eq, Param::new_owned("id", id.to_data()));
    query.push_or();
    query.push_comparison(Operator::Ne, Param::new_owned("id", id2.to_data()));
    assert_eq!(query.to_string(), r#" WHERE "id" = $1 OR "id" != $2"#);
}

#[test]
fn whr_test_simple_like() {
    let id = "str";
    let mut query = Filter::new();
    query.push_like_both("id", id);
    assert_eq!(query.to_string(), r#" WHERE "id" LIKE $1"#);
    assert_eq!(query.params.len(), 1);
    match query.params.get(0).data() {
        ColumnData::Text(t) => assert_eq!(t.as_str(), "%str%"),
        other => panic!("unexpected {:?}", other),
    }
}

#[test]
fn whr_test_limit() {
    let id = new_id();
    let limit = 10;
    let mut query = Filter::new();
    query.push_comparison(Operator::Eq, Param::new_owned("id", id.to_data()));
    query.set_limit_param(Param::from_value("limit", &limit));
    assert_eq!(query.to_string(), " WHERE \"id\" = $1 LIMIT $2");
}

#[test]
fn empty_where_renders_no_where() {
    let query = Filter::new();
    assert_eq!(query.to_string(), "");
    let mut query = Filter::new();
    query.order_by.push_asc("name");
    query.order_by.push_desc("age");
    query.limit.set_fixed(5);
    query.offset.set_fixed(10);
    let text = query.to_string();
    assert_eq!(text, r#" ORDER BY "name" ASC, "age" DESC LIMIT 5 OFFSET 10"#);
    assert!(!text.contains("WHERE"));
}

#[test]
fn comparison_adds_one_placeholder_and_param() {
    let ops = [
        (Operator::Eq, "="),
        (Operator::Ne, "!="),
        (Operator::Lt, "<"),
        (Operator::Lte, "<="),
        (Operator::Gt, ">"),
        (Operator::Gte, ">="),
        (Operator::Like, "LIKE"),
    ];
    for (op, text) in ops {
        let mut query = Filter::new();
        query.push_comparison(Operator::Eq, Param::from_value("a", &1i32));
        query.push_and();
        query.push_comparison(op, Param::from_value("b", &2i64));
        assert_eq!(query.params.len(), 2);
        assert_eq!(query.to_string(), format!(r#" WHERE "a" = $1 AND "b" {} $2"#, text));
    }
}

#[test]
fn in_adds_consecutive_placeholders() {
    let mut query = Filter::new();
    query.push_comparison(Operator::Eq, Param::from_value("a", &true));
    query.push_and();
    let values = vec![Param::from_value("id", &1i32), Param::from_value("id", &2i32), Param::from_value("id", &3i32)];
    query.push_in("id", values);
    query.push_or();
    query.push_comparison(Operator::Gt, Param::from_value("b", &7i16));
    assert_eq!(query.params.len(), 5);
    assert_eq!(
        query.to_string(),
        r#" WHERE "a" = $1 AND "id" IN ($2, $3, $4) OR "b" > $5"#
    );
    let mut empty = Filter::new();
    empty.push_in("id", vec![]);
    assert_eq!(empty.to_string(), r#" WHERE "id" IN ()"#);
    assert_eq!(empty.params.len(), 0);
}

#[test]
fn null_eq_becomes_is_null() {
    let none: Option<String> = None;
    let mut query = Filter::new();
    query.push_comparison(Operator::Eq, Param::from_value("c", &none));
    assert_eq!(query.to_string(), r#" WHERE "c" IS NULL"#);
    assert_eq!(query.params.len(), 0);

    let mut query = WhereFilter::new();
    query.push_comparison(Operator::Ne, Param::from_value("c", &none));
    assert_eq!(query.to_string(), r#" WHERE "c" IS NOT NULL"#);
    assert_eq!(query.params.len(), 0);

    let mut query = Filter::new();
    query.push_comparison(Operator::Lt, Param::from_value("c", &none));
    assert_eq!(query.to_string(), r#" WHERE "c" < $1"#);
    assert_eq!(query.params.len(), 1);

    let some = Some("x".to_string());
    let mut query = Filter::new();
    query.push_comparison(Operator::Eq, Param::from_value("c", &some));
    assert_eq!(query.to_string(), r#" WHERE "c" = $1"#);
    assert_eq!(query.params.len(), 1);
}

#[test]
fn null_checks_take_no_placeholder() {
    let none: Option<i32> = None;
    let mut query = Filter::new();
    query.push_comparison(Operator::Eq, Param::from_value("a", &none));
    query.push_and();
    query.push_comparison(Operator::Eq, Param::from_value("b", &3i32));
    assert_eq!(query.to_string(), r#" WHERE "a" IS NULL AND "b" = $1"#);
}

#[test]
fn like_shorthands() {
    let mut query = WhereFilter::new();
    query.push_like_left("a", "x");
    query.push_and();
    query.push_like_right("b", "y");
    assert_eq!(query.to_string(), r#" WHERE "a" LIKE $1 AND "b" LIKE $2"#);
    let texts: Vec<String> = (0..2)
        .map(|i| match query.params.get(i).data() {
            ColumnData::Text(t) => t.as_str().to_string(),
            other => panic!("unexpected {:?}", other),
        })
        .collect();
    assert_eq!(texts, vec!["%x".to_string(), "y%".to_string()]);
}

#[test]
fn limit_and_offset_params() {
    let mut query = Filter::new();
    query.push_comparison(Operator::Eq, Param::from_value("id", &1i32));
    query.set_limit_param(Param::from_value("limit", &10i64));
    query.set_offset_param(Param::from_value("offset", &20i64));
    assert_eq!(query.to_string(), r#" WHERE "id" = $1 LIMIT $2 OFFSET $3"#);

    let mut query = Filter::new();
    query.order_by.push_asc("id");
    query.limit.set_fixed(1);
    query.set_offset_param(Param::from_value("offset", &20i64));
    assert_eq!(query.to_string(), r#" ORDER BY "id" ASC LIMIT 1 OFFSET $1"#);
}

#[test]
fn where_numbering_after_offset() {
    let mut query = WhereFilter::new();
    query.push_comparison(Operator::Eq, Param::from_value("a", &1i32));
    query.push_and();
    query.push_comparison(Operator::Gte, Param::from_value("b", &2i32));
    assert_eq!(query.whr.to_sql(3), r#" WHERE "a" = $4 AND "b" >= $5"#);
    assert_eq!(query.whr.to_sql(9), r#" WHERE "a" = $10 AND "b" >= $11"#);
}

#[test]
fn borrowed_text_param() {
    let mut query = Filter::new();
    query.push_comparison(
        Operator::Eq,
        Param::new_owned("name", ColumnData::Text(Text::Borrowed("bob"))),
    );
    assert_eq!(query.to_string(), r#" WHERE "name" = $1"#);
    assert!(!query.params.get(0).is_null());
}
