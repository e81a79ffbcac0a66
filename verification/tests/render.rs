use std::rc::Rc;

use rusqlite::types::{ToSqlOutput, Value};
use rusqlite::vtab::array::Array;
use sqlbuild::delete::Delete;
use sqlbuild::expr::{
    BinOpExpr, CallExpr, ChainBinOpExpr, Expr, FieldExpr, LiteralExpr, NullExpr, ParamExpr,
    SubselExpr, TupleExpr,
};
use sqlbuild::insert::{Conflict, Insert, Upsert};
use sqlbuild::join::{Join, JoinSource, NamedJoinSource, Table};
use sqlbuild::select::{Order, Select};
use sqlbuild::update::Update;

fn int_param(n: i64) -> Expr {
    Expr::new(ParamExpr::V(Value::Integer(n)))
}

fn field(table: &'static str, name: &'static str) -> Expr {
    Expr::new(FieldExpr { table, name })
}

#[test]
fn select_simple_filter() {
    let s = Select {
        table: "users",
        output: vec![field("users", "id")],
        join: vec![],
        filter: Some(Expr::new(BinOpExpr {
            op: ">",
            l: field("users", "age"),
            r: int_param(18),
        })),
        group: vec![],
        order: vec![],
        limit: None,
    };
    let mut params: Vec<ToSqlOutput<'static>> = vec![];
    let text = s.build_str(&mut params);
    assert_eq!(
        text,
        "select \"users\".\"id\" from \"users\" where ( \"users\".\"age\" > $1 )"
    );
    assert_eq!(params, vec![ToSqlOutput::Owned(Value::Integer(18))]);
}

#[test]
fn insert_with_conflict_update() {
    let ins = Insert {
        table: "t",
        values: vec![("a", int_param(1)), ("b", int_param(2))],
        conflict: Some(Conflict::Update(Upsert {
            set: vec![("a", int_param(3))],
        })),
        returning: None,
    };
    let mut params: Vec<ToSqlOutput<'static>> = vec![];
    let text = ins.build_str(&mut params);
    assert_eq!(
        text,
        "insert into \"t\" ( \"a\" , \"b\" ) values ( $1 , $2 ) \
         on conflict do update set \"a\" = $3"
    );
    assert_eq!(
        params,
        vec![
            ToSqlOutput::Owned(Value::Integer(1)),
            ToSqlOutput::Owned(Value::Integer(2)),
            ToSqlOutput::Owned(Value::Integer(3)),
        ]
    );
}

#[test]
fn insert_conflict_ignore_and_returning() {
    let ins = Insert {
        table: "t",
        values: vec![("a", int_param(7))],
        conflict: Some(Conflict::Ignore),
        returning: Some(field("t", "id")),
    };
    let mut params: Vec<ToSqlOutput<'static>> = vec![];
    let text = ins.build_str(&mut params);
    assert_eq!(
        text,
        "insert into \"t\" ( \"a\" ) values ( $1 ) on conflict do nothing returning \"t\".\"id\""
    );
    assert_eq!(params.len(), 1);
}

#[test]
fn delete_without_filter() {
    let d = Delete {
        table: "t",
        filter: None,
    };
    let mut params: Vec<ToSqlOutput<'static>> = vec![];
    let text = d.build_str(&mut params);
    assert_eq!(text, "delete from \"t\" where");
    assert_eq!(params.len(), 0);
}

#[test]
fn delete_with_filter() {
    let d = Delete {
        table: "t",
        filter: Some(Expr::new(BinOpExpr {
            op: "=",
            l: field("t", "id"),
            r: int_param(4),
        })),
    };
    let mut params: Vec<ToSqlOutput<'static>> = vec![];
    let text = d.build_str(&mut params);
    assert_eq!(text, "delete from \"t\" where ( \"t\".\"id\" = $1 )");
    assert_eq!(params, vec![ToSqlOutput::Owned(Value::Integer(4))]);
}

#[test]
fn membership_via_virtual_table() {
    let arr: Array = Rc::new(vec![Value::Integer(1), Value::Integer(2), Value::Integer(3)]);
    let s = Select {
        table: "t",
        output: vec![field("t", "id")],
        join: vec![Join {
            source: Box::new(NamedJoinSource {
                source: JoinSource::Table(Table::Virtual(ParamExpr::A(arr.clone()))),
                alias: "m",
            }),
            on: Expr::new(LiteralExpr("true")),
        }],
        filter: None,
        group: vec![],
        order: vec![],
        limit: None,
    };
    let mut params: Vec<ToSqlOutput<'static>> = vec![];
    let text = s.build_str(&mut params);
    assert_eq!(
        text,
        "select \"t\".\"id\" from \"t\" left join rarray( $1 ) as \"m\" on true where"
    );
    assert_eq!(params, vec![ToSqlOutput::Array(arr)]);
}

#[test]
fn update_with_from_and_filter() {
    let u = Update {
        table: "t",
        set: vec![("a", int_param(1)), ("b", Expr::new(NullExpr {}))],
        from: vec![NamedJoinSource {
            source: JoinSource::Table(Table::Real("other")),
            alias: "o",
        }],
        filter: Expr::new(BinOpExpr {
            op: "=",
            l: field("t", "id"),
            r: field("o", "id"),
        }),
    };
    let mut params: Vec<ToSqlOutput<'static>> = vec![];
    let text = u.build_str(&mut params);
    assert_eq!(
        text,
        "update \"t\" set \"a\" = $1 , \"b\" = null from other as \"o\" \
         where ( \"t\".\"id\" = \"o\".\"id\" )"
    );
    assert_eq!(params.len(), 1);
}

#[test]
fn select_group_order_limit() {
    let s = Select {
        table: "t",
        output: vec![
            Expr::new(CallExpr {
                func: "count",
                args: vec![field("t", "id")],
            }),
            field("t", "kind"),
        ],
        join: vec![],
        filter: None,
        group: vec![field("t", "kind")],
        order: vec![(field("t", "kind"), Order::Asc), (field("t", "id"), Order::Desc)],
        limit: Some(42),
    };
    let mut params: Vec<ToSqlOutput<'static>> = vec![];
    let text = s.build_str(&mut params);
    assert_eq!(
        text,
        "select count ( \"t\".\"id\" ) , \"t\".\"kind\" from \"t\" where \
         group by \"t\".\"kind\" order by \"t\".\"kind\" asc , \"t\".\"id\" desc limit 42"
    );
    assert_eq!(params.len(), 0);
}

#[test]
fn placeholder_numbering_follows_traversal_order() {
    // Placeholders number output expressions first, then joins, then the
    // filter: $1 in the output list, $2 in the join condition, $3 in the
    // filter, each matching its position in the parameter list.
    let s = Select {
        table: "t",
        output: vec![int_param(10)],
        join: vec![Join {
            source: Box::new(NamedJoinSource {
                source: JoinSource::Table(Table::Real("u")),
                alias: "u",
            }),
            on: Expr::new(BinOpExpr {
                op: "=",
                l: field("u", "k"),
                r: int_param(20),
            }),
        }],
        filter: Some(Expr::new(BinOpExpr {
            op: "=",
            l: field("t", "k"),
            r: int_param(30),
        })),
        group: vec![],
        order: vec![],
        limit: None,
    };
    let mut params: Vec<ToSqlOutput<'static>> = vec![];
    let text = s.build_str(&mut params);
    assert_eq!(
        text,
        "select $1 from \"t\" left join u as \"u\" on ( \"u\".\"k\" = $2 ) \
         where ( \"t\".\"k\" = $3 )"
    );
    assert_eq!(
        params,
        vec![
            ToSqlOutput::Owned(Value::Integer(10)),
            ToSqlOutput::Owned(Value::Integer(20)),
            ToSqlOutput::Owned(Value::Integer(30)),
        ]
    );
}

#[test]
fn chain_tuple_and_empty_chain() {
    let chain = Expr::new(ChainBinOpExpr {
        op: "and",
        clauses: vec![
            Expr::new(LiteralExpr("1")),
            Expr::new(LiteralExpr("2")),
            Expr::new(LiteralExpr("3")),
        ],
    });
    let tup = Expr::new(TupleExpr {
        values: vec![int_param(1), int_param(2)],
    });
    let empty = Expr::new(ChainBinOpExpr {
        op: "or",
        clauses: vec![],
    });
    let s = Select {
        table: "t",
        output: vec![chain, tup, empty],
        join: vec![],
        filter: None,
        group: vec![],
        order: vec![],
        limit: None,
    };
    let mut params: Vec<ToSqlOutput<'static>> = vec![];
    let text = s.build_str(&mut params);
    assert_eq!(
        text,
        "select ( 1 and 2 and 3 ) , ( $1 , $2 ) , ( ) from \"t\" where"
    );
    assert_eq!(params.len(), 2);
}

#[test]
fn subselect_renders_parenthesized() {
    let inner = Select {
        table: "u",
        output: vec![field("u", "id")],
        join: vec![],
        filter: Some(Expr::new(BinOpExpr {
            op: "=",
            l: field("u", "k"),
            r: int_param(5),
        })),
        group: vec![],
        order: vec![],
        limit: None,
    };
    let s = Select {
        table: "t",
        output: vec![Expr::new(SubselExpr { s: inner })],
        join: vec![],
        filter: None,
        group: vec![],
        order: vec![],
        limit: None,
    };
    let mut params: Vec<ToSqlOutput<'static>> = vec![];
    let text = s.build_str(&mut params);
    assert_eq!(
        text,
        "select ( select \"u\".\"id\" from \"u\" where ( \"u\".\"k\" = $1 ) ) \
         from \"t\" where"
    );
    assert_eq!(params, vec![ToSqlOutput::Owned(Value::Integer(5))]);
}

#[test]
fn building_twice_is_deterministic() {
    let s = Select {
        table: "t",
        output: vec![int_param(1), field("t", "x")],
        join: vec![],
        filter: Some(Expr::new(BinOpExpr {
            op: "<",
            l: field("t", "x"),
            r: int_param(9),
        })),
        group: vec![],
        order: vec![],
        limit: Some(7),
    };
    let mut p1: Vec<ToSqlOutput<'static>> = vec![];
    let t1 = s.build_str(&mut p1);
    let mut p2: Vec<ToSqlOutput<'static>> = vec![];
    let t2 = s.build_str(&mut p2);
    assert_eq!(t1, t2);
    assert_eq!(p1, p2);
}

#[test]
fn from_date_formats_utc_milliseconds() {
    let p = ParamExpr::from_date(947638923004).expect("in range");
    match p {
        ParamExpr::V(v) => {
            assert_eq!(v, Value::Text("2000-01-12T01:02:03.004+00:00".to_string()));
        }
        ParamExpr::A(_) => panic!("scalar expected"),
    }
}

#[test]
fn from_date_rejects_out_of_range() {
    assert!(ParamExpr::from_date(i64::MAX).is_none());
}

#[test]
fn build_appends_to_existing_parameters() {
    // A second statement built into the same parameter vector numbers its
    // placeholders after the ones already registered.
    let d = Delete {
        table: "t",
        filter: Some(Expr::new(BinOpExpr {
            op: "=",
            l: field("t", "id"),
            r: int_param(2),
        })),
    };
    let mut params: Vec<ToSqlOutput<'static>> = vec![ToSqlOutput::Owned(Value::Integer(1))];
    let text = d.build_str(&mut params);
    assert_eq!(text, "delete from \"t\" where ( \"t\".\"id\" = $2 )");
    assert_eq!(params.len(), 2);
}
