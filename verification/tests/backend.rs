//! The backend-facing tests: they run against a live database named by
//! DATABASE_URL and return without exercising anything when no backend is
//! configured, since leasing a connection needs a reachable server.

use std::str::FromStr;

use pgpool::pool::Pool;
use pgpool::queries::{query_columns, query_data, query_databases, query_tables};

fn connect() -> Option<(Pool, pgpool::db::PgConn)> {
    dotenv::dotenv().ok();
    let db_url = match dotenv::var("DATABASE_URL") {
        Ok(v) => v,
        Err(_) => return None,
    };
    let config = postgres::Config::from_str(&db_url).unwrap();
    let pool = Pool::new(config, 4).unwrap();
    let conn = pool.acquire().unwrap();
    Some((pool, conn))
}

#[test]
fn test_databases() {
    let Some((_pool, mut conn)) = connect() else {
        return;
    };
    let dbs = query_databases(&mut conn);
    if let Ok(x) = dbs {
        println!("{:?}", x);
    };
}

#[test]
fn test_tables() {
    let Some((_pool, mut conn)) = connect() else {
        return;
    };
    let table_names = query_tables(&mut conn);
    if let Ok(x) = table_names {
        println!("{:?}", x);
    } else {
        assert_eq!(false, table_names.is_err())
    }
}

#[test]
fn test_columns() {
    let Some((_pool, mut conn)) = connect() else {
        return;
    };
    let column_names = query_columns(&mut conn, "users");
    if let Ok(x) = column_names {
        println!("{:?}", x);
    } else {
        assert_eq!(false, column_names.is_err())
    }
}

#[test]
fn test_query_2() {
    let Some((_pool, mut conn)) = connect() else {
        return;
    };
    if let Ok(people) = query_data(
        &mut conn,
        "select * from people where name=$1 and enabled=$2 limit $3 offset $4",
        "Daniel",
        true,
        10,
        0,
    ) {
        println!("{:?}", people)
    } else {
        assert!(false, "Query err")
    }
}
