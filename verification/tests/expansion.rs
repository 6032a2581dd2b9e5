use test_with_tokio::ident::is_identifier_suffix;
use test_with_tokio::model::{ArmPat, CaseError, CaseErrorKind, Plan, StmtInfo};
use test_with_tokio::plan::{
    check_arms, find_case_stmt, first_async_index, plan_expansion, variant_name,
};

fn plain(has_async: bool) -> StmtInfo {
    StmtInfo { has_async, case_arms: None }
}

fn case_stmt(has_async: bool, arms: Vec<ArmPat>) -> StmtInfo {
    StmtInfo { has_async, case_arms: Some(arms) }
}

fn lit(s: &str) -> ArmPat {
    ArmPat::StrLit(String::from(s))
}

#[test]
fn identifier_suffixes() {
    assert!(is_identifier_suffix("red"));
    assert!(is_identifier_suffix(""));
    assert!(is_identifier_suffix("a_b1"));
    assert!(is_identifier_suffix("_"));
    assert!(!is_identifier_suffix("a-b"));
    assert!(!is_identifier_suffix("a b"));
    assert!(!is_identifier_suffix("red!"));
    // Unicode letters count as alphanumeric, just as `char::is_alphanumeric`
    // counts them for the generated identifier.
    assert!(is_identifier_suffix("caf\u{e9}"));
    assert!(!is_identifier_suffix("a\u{2014}b"));
}

#[test]
fn variant_names() {
    assert_eq!(variant_name("test", "red"), "test_red");
    assert_eq!(variant_name("with_color", "green"), "with_color_green");
    assert_eq!(variant_name("t", ""), "t_");
}

#[test]
fn async_split_points() {
    assert_eq!(first_async_index(&vec![]), 0);
    assert_eq!(first_async_index(&vec![plain(false), plain(false)]), 2);
    assert_eq!(first_async_index(&vec![plain(true), plain(false)]), 0);
    assert_eq!(first_async_index(&vec![plain(false), plain(true), plain(true)]), 1);
}

#[test]
fn finds_first_case_statement() {
    assert_eq!(find_case_stmt(&vec![plain(false), plain(true)]), None);
    let stmts = vec![plain(false), case_stmt(false, vec![lit("a")])];
    assert_eq!(find_case_stmt(&stmts), Some(1));
    let both = vec![
        case_stmt(false, vec![lit("a")]),
        case_stmt(false, vec![lit("b")]),
    ];
    assert_eq!(find_case_stmt(&both), Some(0));
}

#[test]
fn accepts_string_literal_arms() {
    let arms = vec![lit("red"), lit("green")];
    let values = check_arms(&arms).unwrap();
    assert_eq!(values, vec!["red".to_string(), "green".to_string()]);
}

#[test]
fn rejects_bad_identifier() {
    let arms = vec![lit("red"), lit("has space")];
    let err = check_arms(&arms).unwrap_err();
    assert_eq!(err, CaseError { arm: 1, kind: CaseErrorKind::NotValidIdentifier });
}

#[test]
fn rejects_non_string_patterns() {
    let arms = vec![ArmPat::OtherLit];
    let err = check_arms(&arms).unwrap_err();
    assert_eq!(err, CaseError { arm: 0, kind: CaseErrorKind::ExpectedStringLiteral });
    let arms = vec![lit("ok"), ArmPat::NotLit];
    let err = check_arms(&arms).unwrap_err();
    assert_eq!(err, CaseError { arm: 1, kind: CaseErrorKind::ExpectedStringLiteral });
}

#[test]
fn first_bad_arm_wins() {
    let arms = vec![lit("a!"), ArmPat::NotLit];
    let err = check_arms(&arms).unwrap_err();
    assert_eq!(err, CaseError { arm: 0, kind: CaseErrorKind::NotValidIdentifier });
}

#[test]
fn plain_test_splits_before_first_async() {
    // A body like: `let name = ""; async { ... }.await`.
    let stmts = vec![plain(false), plain(true)];
    match plan_expansion("empty_string", &stmts).unwrap() {
        Plan::Single { split_at } => assert_eq!(split_at, 1),
        Plan::Cases { .. } => panic!("no case dispatch here"),
    }
}

#[test]
fn fully_synchronous_test_splits_at_end() {
    let stmts = vec![plain(false), plain(false)];
    match plan_expansion("sync_only", &stmts).unwrap() {
        Plan::Single { split_at } => assert_eq!(split_at, 2),
        Plan::Cases { .. } => panic!("no case dispatch here"),
    }
}

#[test]
fn case_dispatch_makes_one_variant_per_arm() {
    // A body like: `let color = match CASE { "red" => 1, "green" => 2 };
    // sleep(..).await; if CASE == "red" { .. }`.
    let stmts = vec![
        case_stmt(false, vec![lit("red"), lit("green")]),
        plain(true),
        plain(false),
    ];
    match plan_expansion("with_color", &stmts).unwrap() {
        Plan::Single { .. } => panic!("expected a case dispatch"),
        Plan::Cases { split_at, case_stmt, replace_case, variants } => {
            assert_eq!(split_at, 1);
            assert_eq!(case_stmt, 0);
            assert!(replace_case);
            assert_eq!(variants.len(), 2);
            assert_eq!(variants[0].name, "with_color_red");
            assert_eq!(variants[0].value, "red");
            assert_eq!(variants[1].name, "with_color_green");
            assert_eq!(variants[1].value, "green");
        }
    }
}

#[test]
fn dispatch_after_the_split_is_left_in_place() {
    let stmts = vec![plain(true), case_stmt(false, vec![lit("one")])];
    match plan_expansion("late_case", &stmts).unwrap() {
        Plan::Single { .. } => panic!("expected a case dispatch"),
        Plan::Cases { split_at, case_stmt, replace_case, variants } => {
            assert_eq!(split_at, 0);
            assert_eq!(case_stmt, 1);
            assert!(!replace_case);
            assert_eq!(variants.len(), 1);
            assert_eq!(variants[0].name, "late_case_one");
        }
    }
}

#[test]
fn dispatch_without_arms_stays_single() {
    let stmts = vec![case_stmt(false, vec![]), plain(true)];
    match plan_expansion("no_arms", &stmts).unwrap() {
        Plan::Single { split_at } => assert_eq!(split_at, 1),
        Plan::Cases { .. } => panic!("an empty dispatch generates nothing"),
    }
}

#[test]
fn only_the_first_dispatch_counts() {
    let stmts = vec![
        case_stmt(false, vec![lit("a")]),
        case_stmt(false, vec![lit("b"), lit("c")]),
    ];
    match plan_expansion("twice", &stmts).unwrap() {
        Plan::Single { .. } => panic!("expected a case dispatch"),
        Plan::Cases { case_stmt, variants, .. } => {
            assert_eq!(case_stmt, 0);
            assert_eq!(variants.len(), 1);
            assert_eq!(variants[0].name, "twice_a");
        }
    }
}

#[test]
fn bad_arm_refuses_the_whole_rewrite() {
    let stmts = vec![
        plain(false),
        case_stmt(false, vec![lit("fine"), lit("not fine")]),
        plain(true),
    ];
    let err = plan_expansion("broken", &stmts).unwrap_err();
    assert_eq!(err, CaseError { arm: 1, kind: CaseErrorKind::NotValidIdentifier });
}

#[test]
fn arm_body_with_async_moves_the_split() {
    // When an arm's body itself awaits, the dispatch statement is the first
    // async statement, so the split lands on it.
    let stmts = vec![plain(false), case_stmt(true, vec![lit("x")])];
    match plan_expansion("async_arm", &stmts).unwrap() {
        Plan::Single { .. } => panic!("expected a case dispatch"),
        Plan::Cases { split_at, case_stmt, replace_case, .. } => {
            assert_eq!(split_at, 1);
            assert_eq!(case_stmt, 1);
            assert!(!replace_case);
        }
    }
}
