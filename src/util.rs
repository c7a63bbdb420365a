//! `CREATE TABLE` and `CREATE INDEX` statements for a table's columns.
use vstd::prelude::*;
use vstd::string::*;

use crate::column::{kind_not_null, kind_short, kind_value, Column, IndexKind};
use crate::data::{lemma_strings_view_push, strings_view};
pub use crate::text::quote;
use crate::text::{join, join_strings, push_quoted, quoted, str_eq};

verus! {

/// The definition of one column: quoted name, type and nullability.
pub open spec fn column_def(c: Column) -> Seq<char> {
    quoted(c.name@) + " "@ + kind_short(c.kind) + kind_value(c.kind, c.name@) + " "@
        + kind_not_null(c.kind)
}

/// The definitions of the columns, in order.
pub open spec fn column_defs(cols: Seq<Column>) -> Seq<Seq<char>> {
    cols.map_values(|c: Column| column_def(c))
}

/// The quoted names of the primary key columns, in order.
pub open spec fn primary_names(cols: Seq<Column>) -> Seq<Seq<char>>
    decreases cols.len(),
{
    if cols.len() == 0 {
        Seq::empty()
    } else if cols.last().index is Primary {
        primary_names(cols.drop_last()).push(quoted(cols.last().name@))
    } else {
        primary_names(cols.drop_last())
    }
}

/// The names of the columns with a plain index, in order.
pub open spec fn index_names(cols: Seq<Column>) -> Seq<Seq<char>>
    decreases cols.len(),
{
    if cols.len() == 0 {
        Seq::empty()
    } else if cols.last().index is Index {
        index_names(cols.drop_last()).push(cols.last().name@)
    } else {
        index_names(cols.drop_last())
    }
}

/// A unique constraint: the name it was declared under (`None` for the
/// constraint of one `Unique` column) and the quoted names of its columns.
pub type UniqueGroup = (Option<Seq<char>>, Seq<Seq<char>>);

/// The name of a constraint as the spec functions see it.
pub open spec fn key_view(k: Option<&'static str>) -> Option<Seq<char>> {
    match k {
        Some(n) => Some(n@),
        None => None,
    }
}

/// The first group at or after `from` declared under the name `key`.
pub open spec fn find_key(groups: Seq<UniqueGroup>, key: Seq<char>, from: nat) -> Option<nat>
    decreases groups.len() - from,
{
    if from >= groups.len() {
        None
    } else if groups[from as int].0 == Some(key) {
        Some(from)
    } else {
        find_key(groups, key, from + 1)
    }
}

/// The unique constraints of the columns, in first-seen order: one of its
/// own per `Unique` column, and one per distinct `NamedUnique` name, which
/// a column joins when a constraint of that name exists already. A
/// `Unique` column never joins a named constraint, nor the reverse.
pub open spec fn unique_groups(cols: Seq<Column>) -> Seq<UniqueGroup>
    decreases cols.len(),
{
    if cols.len() == 0 {
        Seq::empty()
    } else {
        let groups = unique_groups(cols.drop_last());
        let c = cols.last();
        match c.index {
            IndexKind::Unique => groups.push((None, seq![quoted(c.name@)])),
            IndexKind::NamedUnique(n) => match find_key(groups, n@, 0) {
                Some(i) => groups.update(
                    i as int,
                    (groups[i as int].0, groups[i as int].1.push(quoted(c.name@))),
                ),
                None => groups.push((Some(n@), seq![quoted(c.name@)])),
            },
            _ => groups,
        }
    }
}

/// The `UNIQUE (...)` clause of a group.
pub open spec fn unique_clause(g: UniqueGroup) -> Seq<char> {
    "UNIQUE ("@ + join(g.1, ", "@) + ")"@
}

/// The items between the parentheses of `CREATE TABLE`: the column
/// definitions, the primary key, then the unique constraints.
pub open spec fn table_items(cols: Seq<Column>) -> Seq<Seq<char>> {
    column_defs(cols).push("PRIMARY KEY ("@ + join(primary_names(cols), ", "@) + ")"@)
        + unique_groups(cols).map_values(|g: UniqueGroup| unique_clause(g))
}

/// The `CREATE TABLE` statement.
pub open spec fn create_table_text(name: Seq<char>, cols: Seq<Column>) -> Seq<char> {
    "CREATE TABLE IF NOT EXISTS \""@ + name + "\" ("@ + join(table_items(cols), ", "@) + ")"@
}

/// The `CREATE INDEX` statement for column `col` of table `name`.
pub open spec fn create_index_text(name: Seq<char>, col: Seq<char>) -> Seq<char> {
    "CREATE INDEX IF NOT EXISTS "@ + name + "_"@ + col + "_nidx ON \""@ + name + "\" (\""@ + col
        + "\")"@
}

/// All statements that create table `name` with its indexes.
pub open spec fn ddl_statements(name: Seq<char>, cols: Seq<Column>) -> Seq<Seq<char>> {
    seq![create_table_text(name, cols)] + index_names(cols).map_values(
        |c: Seq<char>| create_index_text(name, c),
    )
}

/// The statements that create table `name`, joined by `; ` into a batch.
pub open spec fn ddl_text(name: Seq<char>, cols: Seq<Column>) -> Seq<char> {
    join(ddl_statements(name, cols), "; "@)
}

fn column_def_string(c: &Column) -> (r: String)
    ensures
        r@ == column_def(*c),
{
    let mut s = String::new();
    push_quoted(&mut s, c.name);
    s.append(" ");
    let kind = c.kind.to_string(c.name);
    s.append(kind.as_str());
    s.append(" ");
    s.append(c.kind.not_null_str());
    assert(s@ =~= column_def(*c));
    s
}

fn wrap(prefix: &str, inner: &str, suffix: &str) -> (r: String)
    ensures
        r@ == prefix@ + inner@ + suffix@,
{
    let mut s = String::from_str(prefix);
    s.append(inner);
    s.append(suffix);
    s
}

/// The `CREATE TABLE IF NOT EXISTS` statement for table `name` with the
/// columns `data`, followed by a `CREATE INDEX IF NOT EXISTS` statement for
/// each column with a plain index, joined by `; ` for batch execution.
pub fn info_data_to_sql(name: &str, data: &[Column]) -> (r: String)
    ensures
        r@ == ddl_text(name@, data@),
{
    let mut primary: Vec<String> = Vec::new();
    let mut normal: Vec<&'static str> = Vec::new();
    let mut keys: Vec<Option<&'static str>> = Vec::new();
    let mut groups: Vec<Vec<String>> = Vec::new();
    let mut cols_sql: Vec<String> = Vec::new();
    let mut i: usize = 0;
    while i < data.len()
        invariant
            i <= data@.len(),
            strings_view(cols_sql@) == column_defs(data@.subrange(0, i as int)),
            strings_view(primary@) == primary_names(data@.subrange(0, i as int)),
            normal@.map_values(|n: &'static str| n@) == index_names(data@.subrange(0, i as int)),
            keys@.len() == groups@.len(),
            keys@.len() == unique_groups(data@.subrange(0, i as int)).len(),
            forall|j: int|
                0 <= j < keys@.len() ==> key_view(#[trigger] keys@[j]) == unique_groups(
                    data@.subrange(0, i as int),
                )[j].0,
            forall|j: int|
                0 <= j < groups@.len() ==> strings_view((#[trigger] groups@[j])@) == unique_groups(
                    data@.subrange(0, i as int),
                )[j].1,
        decreases data@.len() - i,
    {
        let ghost prefix = data@.subrange(0, i as int);
        let ghost next = data@.subrange(0, i + 1);
        assert(next.drop_last() =~= prefix);
        let ghost ug = unique_groups(prefix);
        let col = &data[i];
        let def = column_def_string(col);
        proof {
            lemma_strings_view_push(cols_sql@, def);
            assert(column_defs(next) =~= column_defs(prefix).push(column_def(*col)));
        }
        cols_sql.push(def);
        let quoted_name = crate::text::quote(col.name);
        match col.index {
            IndexKind::Primary => {
                proof {
                    lemma_strings_view_push(primary@, quoted_name);
                }
                primary.push(quoted_name);
                assert(strings_view(primary@) =~= primary_names(next));
            },
            IndexKind::Unique => {
                keys.push(None);
                let mut g: Vec<String> = Vec::new();
                g.push(quoted_name);
                assert(strings_view(g@) =~= seq![quoted(col.name@)]);
                groups.push(g);
                assert(strings_view(primary@) =~= primary_names(next));
            },
            IndexKind::NamedUnique(n) => {
                let mut j: usize = 0;
                let mut pos: usize = keys.len();
                while j < keys.len()
                    invariant
                        j <= keys@.len(),
                        pos <= keys@.len(),
                        keys@.len() == ug.len(),
                        forall|k: int| 0 <= k < keys@.len() ==> key_view(#[trigger] keys@[k]) == ug[k].0,
                        pos == keys@.len() ==> find_key(ug, n@, 0) == find_key(ug, n@, j as nat),
                        pos < keys@.len() ==> find_key(ug, n@, 0) == Some(pos as nat),
                    decreases keys@.len() - j,
                {
                    if pos == keys.len() {
                        match keys[j] {
                            Some(k) => {
                                if str_eq(k, n) {
                                    pos = j;
                                }
                            },
                            None => {},
                        }
                    }
                    j = j + 1;
                }
                let found = pos < keys.len();
                let j = pos;
                if found {
                    let ghost old_groups = groups@;
                    proof {
                        lemma_strings_view_push(groups@[j as int]@, quoted_name);
                    }
                    groups[j].push(quoted_name);
                    proof {
                        let target = ug.update(
                            j as int,
                            (ug[j as int].0, ug[j as int].1.push(quoted(col.name@))),
                        );
                        assert(unique_groups(next) == target);
                        assert forall|k: int| 0 <= k < groups@.len() implies strings_view(
                            (#[trigger] groups@[k])@,
                        ) == target[k].1 by {
                            if k != j {
                                assert(groups@[k] == old_groups[k]);
                            }
                        }
                    }
                } else {
                    keys.push(Some(n));
                    let mut g: Vec<String> = Vec::new();
                    g.push(quoted_name);
                    assert(strings_view(g@) =~= seq![quoted(col.name@)]);
                    groups.push(g);
                    assert(unique_groups(next) == ug.push((Some(n@), seq![quoted(col.name@)])));
                }
                assert(strings_view(primary@) =~= primary_names(next));
            },
            IndexKind::Index => {
                normal.push(col.name);
                assert(strings_view(primary@) =~= primary_names(next));
            },
            IndexKind::NoIndex => {
                assert(strings_view(primary@) =~= primary_names(next));
            },
        }
        i = i + 1;
        assert(normal@.map_values(|n: &'static str| n@) =~= index_names(next));
    }
    assert(data@.subrange(0, data@.len() as int) =~= data@);
    let ghost ug = unique_groups(data@);
    let primary_list = join_strings(&primary, ", ");
    let pk = wrap("PRIMARY KEY (", primary_list.as_str(), ")");
    proof {
        lemma_strings_view_push(cols_sql@, pk);
    }
    cols_sql.push(pk);
    assert(ug.subrange(0, 0) =~= Seq::<UniqueGroup>::empty());
    let mut k: usize = 0;
    while k < groups.len()
        invariant
            k <= groups@.len(),
            keys@.len() == groups@.len(),
            groups@.len() == ug.len(),
            forall|j: int|
                0 <= j < groups@.len() ==> strings_view((#[trigger] groups@[j])@) == ug[j].1,
            strings_view(cols_sql@) == column_defs(data@).push(
                "PRIMARY KEY ("@ + join(primary_names(data@), ", "@) + ")"@,
            ) + ug.subrange(0, k as int).map_values(|g: UniqueGroup| unique_clause(g)),
        decreases groups@.len() - k,
    {
        let list = join_strings(&groups[k], ", ");
        let clause = wrap("UNIQUE (", list.as_str(), ")");
        proof {
            lemma_strings_view_push(cols_sql@, clause);
            assert(clause@ == unique_clause(ug[k as int]));
            assert(ug.subrange(0, k + 1).map_values(|g: UniqueGroup| unique_clause(g))
                =~= ug.subrange(0, k as int).map_values(|g: UniqueGroup| unique_clause(g)).push(
                unique_clause(ug[k as int]),
            ));
        }
        cols_sql.push(clause);
        k = k + 1;
        assert(strings_view(cols_sql@) =~= column_defs(data@).push(
            "PRIMARY KEY ("@ + join(primary_names(data@), ", "@) + ")"@,
        ) + ug.subrange(0, k as int).map_values(|g: UniqueGroup| unique_clause(g)));
    }
    assert(ug.subrange(0, ug.len() as int) =~= ug);
    let items = join_strings(&cols_sql, ", ");
    let mut sqls: Vec<String> = Vec::new();
    let mut create = String::from_str("CREATE TABLE IF NOT EXISTS \"");
    create.append(name);
    create.append("\" (");
    create.append(items.as_str());
    create.append(")");
    proof {
        lemma_strings_view_push(sqls@, create);
    }
    sqls.push(create);
    let ghost idx = index_names(data@);
    let mut k: usize = 0;
    while k < normal.len()
        invariant
            k <= normal@.len(),
            normal@.map_values(|n: &'static str| n@) == idx,
            strings_view(sqls@) == seq![create_table_text(name@, data@)] + idx.subrange(
                0,
                k as int,
            ).map_values(|c: Seq<char>| create_index_text(name@, c)),
        decreases normal@.len() - k,
    {
        let ind = normal[k];
        assert(ind@ == idx[k as int]);
        let mut st = String::from_str("CREATE INDEX IF NOT EXISTS ");
        st.append(name);
        st.append("_");
        st.append(ind);
        st.append("_nidx ON \"");
        st.append(name);
        st.append("\" (\"");
        st.append(ind);
        st.append("\")");
        proof {
            lemma_strings_view_push(sqls@, st);
            assert(st@ == create_index_text(name@, idx[k as int]));
            assert(idx.subrange(0, k + 1).map_values(|c: Seq<char>| create_index_text(name@, c))
                =~= idx.subrange(0, k as int).map_values(
                |c: Seq<char>| create_index_text(name@, c),
            ).push(create_index_text(name@, idx[k as int])));
        }
        sqls.push(st);
        k = k + 1;
        assert(strings_view(sqls@) =~= seq![create_table_text(name@, data@)] + idx.subrange(
            0,
            k as int,
        ).map_values(|c: Seq<char>| create_index_text(name@, c)));
    }
    assert(idx.subrange(0, idx.len() as int) =~= idx);
    join_strings(&sqls, "; ")
}

/// A table of a primary key column, two columns that share one unique
/// constraint name, and one indexed column gets one primary key over the
/// first, one unique constraint over the two, and exactly one index
/// statement besides `CREATE TABLE`.
pub proof fn lemma_ddl_primary_pair_index(
    name: Seq<char>,
    p: Column,
    u1: Column,
    u2: Column,
    x: Column,
    key: &'static str,
)
    requires
        p.index is Primary,
        u1.index == IndexKind::NamedUnique(key),
        u2.index == IndexKind::NamedUnique(key),
        x.index is Index,
    ensures
        primary_names(seq![p, u1, u2, x]) == seq![quoted(p.name@)],
        unique_groups(seq![p, u1, u2, x]) == seq![(Some(key@), seq![quoted(u1.name@), quoted(u2.name@)])],
        index_names(seq![p, u1, u2, x]) == seq![x.name@],
        ddl_statements(name, seq![p, u1, u2, x]) == seq![
            create_table_text(name, seq![p, u1, u2, x]),
            create_index_text(name, x.name@),
        ],
{
    let c1 = seq![p];
    let c2 = seq![p, u1];
    let c3 = seq![p, u1, u2];
    let c4 = seq![p, u1, u2, x];
    assert(c1.drop_last() =~= Seq::<Column>::empty());
    assert(c2.drop_last() =~= c1);
    assert(c3.drop_last() =~= c2);
    assert(c4.drop_last() =~= c3);
    assert(c1.last() == p);
    assert(c2.last() == u1);
    assert(c3.last() == u2);
    assert(c4.last() == x);
    assert(primary_names(Seq::<Column>::empty()) =~= Seq::<Seq<char>>::empty());
    assert(unique_groups(Seq::<Column>::empty()) =~= Seq::<UniqueGroup>::empty());
    assert(index_names(Seq::<Column>::empty()) =~= Seq::<Seq<char>>::empty());
    assert(primary_names(c1) =~= seq![quoted(p.name@)]);
    assert(unique_groups(c1) =~= Seq::<UniqueGroup>::empty());
    assert(index_names(c1) =~= Seq::<Seq<char>>::empty());
    let g2 = seq![(Some(key@), seq![quoted(u1.name@)])];
    assert(unique_groups(c2) =~= g2);
    assert(find_key(g2, key@, 0) == Some(0nat));
    let g3 = seq![(Some(key@), seq![quoted(u1.name@), quoted(u2.name@)])];
    assert(g2[0] == (Some(key@), seq![quoted(u1.name@)]));
    assert(seq![quoted(u1.name@)].push(quoted(u2.name@)) =~= seq![quoted(u1.name@), quoted(u2.name@)]);
    assert(g2.update(0, (g2[0].0, g2[0].1.push(quoted(u2.name@))))[0] == g3[0]);
    assert(g2.update(0, (g2[0].0, g2[0].1.push(quoted(u2.name@)))) =~= g3);
    assert(unique_groups(c3) == g3);
    assert(unique_groups(c4) == g3);
    assert(primary_names(c2) =~= seq![quoted(p.name@)]);
    assert(primary_names(c3) =~= seq![quoted(p.name@)]);
    assert(primary_names(c4) =~= seq![quoted(p.name@)]);
    assert(index_names(c2) =~= Seq::<Seq<char>>::empty());
    assert(index_names(c3) =~= Seq::<Seq<char>>::empty());
    assert(index_names(c4) =~= seq![x.name@]);
    assert(ddl_statements(name, c4) =~= seq![
        create_table_text(name, c4),
        create_index_text(name, x.name@),
    ]);
}

/// A `Unique` column keeps a constraint of its own, even when a later
/// column's constraint name equals its column name.
pub proof fn lemma_unique_stays_apart(u: Column, v: Column, n: &'static str)
    requires
        u.index is Unique,
        v.index == IndexKind::NamedUnique(n),
    ensures
        unique_groups(seq![u, v]) == seq![
            (None::<Seq<char>>, seq![quoted(u.name@)]),
            (Some(n@), seq![quoted(v.name@)]),
        ],
{
    let c1 = seq![u];
    let c2 = seq![u, v];
    assert(c1.drop_last() =~= Seq::<Column>::empty());
    assert(c2.drop_last() =~= c1);
    assert(c1.last() == u);
    assert(c2.last() == v);
    assert(unique_groups(Seq::<Column>::empty()) =~= Seq::<UniqueGroup>::empty());
    let g1 = seq![(None::<Seq<char>>, seq![quoted(u.name@)])];
    assert(unique_groups(c1) =~= g1);
    assert(find_key(g1, n@, 1) == None::<nat>);
    assert(find_key(g1, n@, 0) == None::<nat>);
    assert(unique_groups(c2) =~= seq![
        (None::<Seq<char>>, seq![quoted(u.name@)]),
        (Some(n@), seq![quoted(v.name@)]),
    ]);
}

} // verus!
