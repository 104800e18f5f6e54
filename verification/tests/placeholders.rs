use pgpool::placeholder::check_placeholders;

#[test]
fn people_template_matches_four_parameters() {
    let sql = "select * from people where name=$1 and enabled=$2 limit $3 offset $4";
    assert!(check_placeholders(sql, 4));
}

#[test]
fn template_without_placeholders_matches_zero() {
    assert!(check_placeholders("SELECT datname FROM pg_database;", 0));
}

#[test]
fn missing_parameter_is_a_mismatch() {
    assert!(!check_placeholders("select * from people where name=$1", 4));
    assert!(!check_placeholders("select $1, $2, $4 from t", 4));
}

#[test]
fn reference_past_the_count_is_a_mismatch() {
    assert!(!check_placeholders("select $5 from t", 4));
    assert!(!check_placeholders("select $1, $2 from t", 1));
}

#[test]
fn repeated_references_are_fine() {
    assert!(check_placeholders("select $1, $2, $1, $2 from t", 2));
}

#[test]
fn digit_runs_are_read_whole() {
    // $12 references parameter twelve, not one-then-two
    assert!(!check_placeholders("select $12 from t", 2));
}

#[test]
fn zero_is_never_a_parameter() {
    assert!(!check_placeholders("select $0 from t", 1));
}

#[test]
fn dollar_without_digits_is_not_a_placeholder() {
    assert!(check_placeholders("select '$' , $1 from t", 1));
}

#[test]
fn huge_index_is_a_mismatch() {
    assert!(!check_placeholders("select $99999999999999999999 from t", 4));
}
