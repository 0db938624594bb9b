use user_directory::bootstrap::{
    conn_string_with_default_database, create_database_statement, database_exists_query,
    default_database_name, names_database, provisioning_plan, users_table_ddl, ProvisioningPlan,
};

#[test]
fn plain_conn_string_names_no_database() {
    assert!(!names_database("host=localhost user=postgres"));
    assert_eq!(
        provisioning_plan("host=localhost user=postgres"),
        ProvisioningPlan::CreateDefaultDatabase
    );
}

#[test]
fn conn_string_with_dbname_is_used_as_given() {
    assert!(names_database("host=localhost user=postgres dbname=mydb"));
    assert_eq!(
        provisioning_plan("host=localhost user=postgres dbname=mydb"),
        ProvisioningPlan::UseNamedDatabase
    );
}

#[test]
fn dbname_marker_is_case_insensitive() {
    assert!(names_database("host=x DBNAME=mydb"));
    assert!(names_database("host=x DbName=mydb"));
}

#[test]
fn short_strings_name_no_database() {
    assert!(!names_database(""));
    assert!(!names_database("dbname"));
}

#[test]
fn default_database_is_appended() {
    let s = conn_string_with_default_database("host=localhost");
    assert_eq!(s, "host=localhost dbname=highload_alexander_bubnov");
    assert!(names_database(&s));
}

#[test]
fn provisioning_statements() {
    assert_eq!(default_database_name(), "highload_alexander_bubnov");
    assert_eq!(
        create_database_statement(),
        "create database highload_alexander_bubnov"
    );
    assert_eq!(
        database_exists_query(),
        "SELECT datname FROM pg_catalog.pg_database WHERE datname = 'highload_alexander_bubnov'"
    );
    assert!(users_table_ddl().starts_with("create table if not exists users"));
    assert!(users_table_ddl().contains("id text PRIMARY KEY"));
    assert!(users_table_ddl().contains("token text"));
}
