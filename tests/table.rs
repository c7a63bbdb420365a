use fire_postgres::column::{Column, ColumnKind, IndexKind};
use fire_postgres::data::{ColumnData, Text};
use fire_postgres::filter::{Filter, Operator, Param, Params, WhereFilter};
use fire_postgres::query::Query;
use fire_postgres::info::Info;
use fire_postgres::table::Table;
use fire_postgres::uid::UniqueId;
use fire_postgres::update::{RowBuilder, UpdateParams};
use fire_postgres::util::{info_data_to_sql, quote};

fn template_info() -> Info {
    let mut info = Info::with_capacity(4);
    info.push(Column { name: "id", kind: UniqueId::column_kind(), index: IndexKind::Primary });
    info.push(Column::new::<Option<String>>("name", None, IndexKind::NoIndex));
    info.push(Column::new::<i32>("age", None, IndexKind::NoIndex));
    info.push(Column { name: "ty", kind: ColumnKind::I32, index: IndexKind::NoIndex });
    info
}

#[test]
fn test_select_columns() {
    assert_eq!(template_info().select_columns(), r#""id", "name", "age", "ty""#);
}

#[test]
fn test_insert_columns() {
    assert_eq!(template_info().insert_columns(), r#""id", "name", "age", "ty""#);
}

#[test]
fn test_create_row() {
    let s = "";
    let test = ColumnData::Text(Text::Borrowed("123"));
    let s = ColumnData::Text(Text::Borrowed(s));
    let mut row = RowBuilder::new();
    row.push("test", &test);
    row.push("s", &s);
    assert_eq!(row.params_len(), 2);
}

#[test]
fn test_row_builder() {
    let id = ColumnData::I32(1);
    let name = ColumnData::Text(Text::Borrowed("test"));
    let email = ColumnData::Text(Text::Borrowed("test"));
    let mut row = RowBuilder::new();
    row.push("id", &id);
    row.push("name", &name);
    row.push("email", &email);

    let mut cols = String::new();
    row.insert_columns(&mut cols);
    assert_eq!(cols, r#""id", "name", "email""#);

    let mut values = String::new();
    row.insert_values(&mut values);
    assert_eq!(values, r#"$1, $2, $3"#);

    let mut update = String::new();
    row.update_columns(&mut update);
    assert_eq!(update, r#""id" = $1, "name" = $2, "email" = $3"#);
}

#[test]
fn row_builder_appends_after_existing_text() {
    let b = ColumnData::Boolean(true);
    let mut row = RowBuilder::new();
    row.push("b", &b);
    let mut cols = String::from(r#""a""#);
    row.insert_columns(&mut cols);
    assert_eq!(cols, r#""a", "b""#);
}

#[test]
fn ddl_primary_named_unique_and_index() {
    let cols = vec![
        Column { name: "id", kind: ColumnKind::FixedText(14), index: IndexKind::Primary },
        Column::new::<String>("email", None, IndexKind::NamedUnique("contact")),
        Column::new::<Option<String>>("phone", None, IndexKind::NamedUnique("contact")),
        Column::new::<i32>("age", None, IndexKind::Index),
    ];
    let sql = info_data_to_sql("users", &cols);
    assert_eq!(
        sql,
        "CREATE TABLE IF NOT EXISTS \"users\" (\"id\" text CHECK (length(id)=14) not null, \
         \"email\" text not null, \"phone\" text null, \"age\" int4 not null, \
         PRIMARY KEY (\"id\"), UNIQUE (\"email\", \"phone\")); \
         CREATE INDEX IF NOT EXISTS users_age_nidx ON \"users\" (\"age\")"
    );
    assert_eq!(sql.matches("PRIMARY KEY").count(), 1);
    assert_eq!(sql.matches("UNIQUE (").count(), 1);
    assert_eq!(sql.matches("CREATE INDEX").count(), 1);
}

#[test]
fn ddl_unique_columns_each_own_clause() {
    let info = Info::new(vec![
        Column::new::<i64>("id", None, IndexKind::Primary),
        Column::new::<i64>("org", None, IndexKind::Primary),
        Column::new::<String>("slug", Some(50), IndexKind::Unique),
        Column::new::<bool>("flag", None, IndexKind::Unique),
        Column::new::<i16>("rank", None, IndexKind::Index),
        Column { name: "tags", kind: ColumnKind::TextArray, index: IndexKind::Index },
    ]);
    assert_eq!(
        info.create_sql("t"),
        "CREATE TABLE IF NOT EXISTS \"t\" (\"id\" int8 not null, \"org\" int8 not null, \
         \"slug\" varchar(50) not null, \"flag\" boolean not null, \"rank\" int2 not null, \
         \"tags\" text [] not null, PRIMARY KEY (\"id\", \"org\"), UNIQUE (\"slug\"), \
         UNIQUE (\"flag\")); CREATE INDEX IF NOT EXISTS t_rank_nidx ON \"t\" (\"rank\"); \
         CREATE INDEX IF NOT EXISTS t_tags_nidx ON \"t\" (\"tags\")"
    );
}

#[test]
fn ddl_without_primary_or_indexes() {
    let cols = vec![Column::new::<Option<i64>>("n", None, IndexKind::NoIndex)];
    assert_eq!(
        info_data_to_sql("x", &cols),
        "CREATE TABLE IF NOT EXISTS \"x\" (\"n\" int8 null, PRIMARY KEY ())"
    );
}

#[test]
fn quote_wraps_in_double_quotes() {
    assert_eq!(quote("col"), "\"col\"");
    assert_eq!(quote(""), "\"\"");
}

#[test]
fn info_names_in_order() {
    let info = template_info();
    assert_eq!(info.names(), vec!["id", "name", "age", "ty"]);
    assert_eq!(info.data().len(), 4);
}

fn update_then_where(k: usize) -> String {
    let names = ["a", "b", "c"];
    let mut params = Vec::new();
    for name in names.iter().take(k) {
        params.push(Param::from_value(name, &1i32));
    }
    let update = UpdateParams::new(params);
    let mut whr = WhereFilter::new();
    whr.push_comparison(Operator::Eq, Param::from_value("id", &9i64));
    whr.push_and();
    whr.push_in("x", vec![Param::from_value("x", &1i32), Param::from_value("x", &2i32)]);
    let table = Table::new("t");
    let sql = table.update_sql(&update.to_sql(), update.len(), &whr.whr);
    let mut all = update.into_params();
    all.append(whr.params);
    assert_eq!(all.len(), k + 3);
    sql
}

fn placeholder_numbers(sql: &str) -> Vec<usize> {
    let mut out = Vec::new();
    let bytes = sql.as_bytes();
    let mut i = 0;
    while i < bytes.len() {
        if bytes[i] == b'$' {
            let mut j = i + 1;
            while j < bytes.len() && bytes[j].is_ascii_digit() {
                j += 1;
            }
            out.push(sql[i + 1..j].parse().unwrap());
            i = j;
        } else {
            i += 1;
        }
    }
    out
}

#[test]
fn update_then_where_numbers_increase() {
    assert_eq!(
        update_then_where(0),
        r#"UPDATE "t" SET  WHERE "id" = $1 AND "x" IN ($2, $3)"#
    );
    assert_eq!(
        update_then_where(1),
        r#"UPDATE "t" SET "a" = $1 WHERE "id" = $2 AND "x" IN ($3, $4)"#
    );
    assert_eq!(
        update_then_where(3),
        r#"UPDATE "t" SET "a" = $1, "b" = $2, "c" = $3 WHERE "id" = $4 AND "x" IN ($5, $6)"#
    );
    for k in [0usize, 1, 3] {
        let numbers = placeholder_numbers(&update_then_where(k));
        let expected: Vec<usize> = (1..=k + 3).collect();
        assert_eq!(numbers, expected);
    }
}

#[test]
fn statements_for_a_table() {
    let table = Table::new("users");
    assert_eq!(table.name(), "users");
    let mut filter = Filter::new();
    filter.push_comparison(Operator::Eq, Param::from_value("id", &5i64));
    filter.limit.set_fixed(1);
    assert_eq!(
        table.select_sql(r#""id", "name""#, &filter),
        r#"SELECT "id", "name" FROM "users" WHERE "id" = $1 LIMIT 1"#
    );
    assert_eq!(
        table.count_sql("id", &filter),
        r#"SELECT COUNT("id") FROM "users" WHERE "id" = $1 LIMIT 1"#
    );
    assert_eq!(
        table.insert_sql(r#""id", "name""#, "$1, $2"),
        r#"INSERT INTO "users" ("id", "name") VALUES ($1, $2)"#
    );
    let mut whr = WhereFilter::new();
    whr.push_comparison(Operator::Lt, Param::from_value("age", &18i32));
    assert_eq!(table.delete_sql(&whr), r#"DELETE FROM "users" WHERE "age" < $1"#);
    let empty = WhereFilter::new();
    assert_eq!(table.delete_sql(&empty), r#"DELETE FROM "users""#);
}

#[test]
fn fragments_splice_text_and_params() {
    let update = UpdateParams::new(vec![Param::from_value("a", &1i32), Param::from_value("b", &2i32)]);
    let k = update.len();
    let set = update.to_sql();
    let mut whr = WhereFilter::new();
    whr.push_comparison(Operator::Eq, Param::from_value("id", &3i64));
    let mut query = Query::new(whr.whr.to_sql(k), whr.params);
    query.prepend(&set, update.into_params());
    query.prepend("UPDATE \"t\" SET ", Params::new());
    assert_eq!(query.sql(), r#"UPDATE "t" SET "a" = $1, "b" = $2 WHERE "id" = $3"#);
    assert_eq!(query.params().len(), 3);
    assert_eq!(query.params().get(2).name, "id");
    let mut tail = Query::from_sql_str(" LIMIT 1");
    assert!(!tail.is_empty());
    tail.append_raw("", Params::new());
    query.append(tail);
    let (sql, params) = query.into_parts();
    assert_eq!(sql, r#"UPDATE "t" SET "a" = $1, "b" = $2 WHERE "id" = $3 LIMIT 1"#);
    assert_eq!(params.len(), 3);
    assert!(Query::from_sql_str("").is_empty());
}

#[test]
fn unique_column_keeps_its_own_clause() {
    let cols = vec![
        Column::new::<i64>("id", None, IndexKind::Primary),
        Column::new::<String>("x", None, IndexKind::Unique),
        Column::new::<String>("y", None, IndexKind::NamedUnique("x")),
        Column::new::<String>("z", None, IndexKind::NamedUnique("x")),
    ];
    assert_eq!(
        info_data_to_sql("t", &cols),
        "CREATE TABLE IF NOT EXISTS \"t\" (\"id\" int8 not null, \"x\" text not null, \
         \"y\" text not null, \"z\" text not null, PRIMARY KEY (\"id\"), UNIQUE (\"x\"), \
         UNIQUE (\"y\", \"z\"))"
    );
}

#[test]
fn whole_statements_with_params() {
    let table = Table::new("t");
    let update = UpdateParams::new(vec![Param::from_value("a", &1i32), Param::from_value("b", &2i32)]);
    let mut whr = WhereFilter::new();
    whr.push_comparison(Operator::Eq, Param::from_value("id", &3i64));
    let query = table.update(update, whr).unwrap();
    assert_eq!(query.sql(), r#"UPDATE "t" SET "a" = $1, "b" = $2 WHERE "id" = $3"#);
    let names: Vec<String> = (0..3).map(|i| query.params().get(i).name.clone()).collect();
    assert_eq!(names, vec!["a", "b", "id"]);

    let mut filter = Filter::new();
    filter.push_comparison(Operator::Gt, Param::from_value("age", &18i32));
    filter.set_limit_param(Param::from_value("limit", &5i64));
    let query = table.select(r#""id""#, filter).unwrap();
    assert_eq!(query.sql(), r#"SELECT "id" FROM "t" WHERE "age" > $1 LIMIT $2"#);
    assert_eq!(query.params().len(), 2);

    let mut bad = Filter::new();
    bad.offset.set_param();
    assert!(table.select(r#""id""#, bad).is_none());

    let mut whr = WhereFilter::new();
    whr.push_in("id", vec![Param::from_value("id", &1i32), Param::from_value("id", &2i32)]);
    let query = table.delete(whr).unwrap();
    assert_eq!(query.sql(), r#"DELETE FROM "t" WHERE "id" IN ($1, $2)"#);
    assert_eq!(query.params().len(), 2);
}

#[test]
fn params_borrow_or_own() {
    let value = ColumnData::Text(Text::Borrowed("v"));
    let p = Param::new("a", &value);
    assert!(matches!(p.data, fire_postgres::filter::CowParamData::Borrowed(_)));
    assert_eq!(p.data(), &value);
    let q = Param::new_owned("b", ColumnData::Option(None));
    assert!(q.is_null());
    assert!(matches!(q.data, fire_postgres::filter::CowParamData::Owned(_)));
}
