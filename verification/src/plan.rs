//! The rewrite's decisions: where the body splits, which statement carries
//! the case dispatch, and what gets generated.

use vstd::prelude::*;
use vstd::string::StringExecFns;
use crate::model::{ArmPat, CaseError, CaseErrorKind, Plan, StmtInfo, Variant};
use crate::ident::{case_name_ok, is_identifier_suffix};

verus! {

/// `i` is where the body splits: everything before the first statement that
/// touches async code stays outside the runtime. When no statement does,
/// the split sits at the body's end.
pub open spec fn is_async_split(stmts: Seq<StmtInfo>, i: int) -> bool {
    &&& 0 <= i <= stmts.len()
    &&& forall|j: int| 0 <= j < i ==> !(#[trigger] stmts[j]).has_async
    &&& i < stmts.len() ==> stmts[i].has_async
}

/// Index of the first statement that touches async code, or the body's
/// length when none does.
pub fn first_async_index(stmts: &Vec<StmtInfo>) -> (i: usize)
    ensures
        is_async_split(stmts@, i as int),
{
    let mut i: usize = 0;
    while i < stmts.len()
        invariant
            i <= stmts@.len(),
            forall|j: int| 0 <= j < i ==> !(#[trigger] stmts@[j]).has_async,
        decreases stmts@.len() - i,
    {
        if stmts[i].has_async {
            return i;
        }
        i += 1;
    }
    i
}

/// `i` is the statement the rewrite takes its cases from: the first one that
/// binds a `match CASE`. Later such statements are left alone.
pub open spec fn is_first_case(stmts: Seq<StmtInfo>, i: int) -> bool {
    &&& 0 <= i < stmts.len()
    &&& stmts[i].case_arms is Some
    &&& forall|j: int| 0 <= j < i ==> (#[trigger] stmts[j]).case_arms is None
}

/// Some statement binds a `match CASE`.
pub open spec fn has_case_stmt(stmts: Seq<StmtInfo>) -> bool {
    exists|i: int| is_first_case(stmts, i)
}

/// Finds the first statement that binds a `match CASE`, if any.
pub fn find_case_stmt(stmts: &Vec<StmtInfo>) -> (r: Option<usize>)
    ensures
        match r {
            Some(i) => is_first_case(stmts@, i as int),
            None => !has_case_stmt(stmts@),
        },
{
    let mut i: usize = 0;
    while i < stmts.len()
        invariant
            i <= stmts@.len(),
            forall|j: int| 0 <= j < i ==> (#[trigger] stmts@[j]).case_arms is None,
        decreases stmts@.len() - i,
    {
        if stmts[i].case_arms.is_some() {
            return Some(i);
        }
        i += 1;
    }
    proof {
        assert forall|k: int| !is_first_case(stmts@, k) by {
            if 0 <= k < stmts@.len() {
                assert(stmts@[k].case_arms is None);
            }
        }
    }
    None
}

/// An acceptable arm: a string-literal pattern whose value may stand as an
/// identifier suffix.
pub open spec fn arm_ok(p: ArmPat) -> bool {
    p matches ArmPat::StrLit(s) && case_name_ok(s@)
}

/// The complaint an unacceptable arm earns: a string literal with a bad
/// character is rejected as an identifier, anything else for not being a
/// string literal.
pub open spec fn arm_error_kind(p: ArmPat) -> CaseErrorKind {
    match p {
        ArmPat::StrLit(_) => CaseErrorKind::NotValidIdentifier,
        _ => CaseErrorKind::ExpectedStringLiteral,
    }
}

/// Every arm is acceptable.
pub open spec fn arms_ok(arms: Seq<ArmPat>) -> bool {
    forall|k: int| 0 <= k < arms.len() ==> arm_ok(#[trigger] arms[k])
}

/// `e` names the first unacceptable arm, with that arm's complaint.
pub open spec fn is_arms_error(arms: Seq<ArmPat>, e: CaseError) -> bool {
    &&& 0 <= e.arm < arms.len()
    &&& !arm_ok(arms[e.arm as int])
    &&& forall|k: int| 0 <= k < e.arm ==> arm_ok(#[trigger] arms[k])
    &&& e.kind == arm_error_kind(arms[e.arm as int])
}

/// `v` is the value of `arm`'s string-literal pattern.
pub open spec fn arm_value(arm: ArmPat, v: Seq<char>) -> bool {
    arm matches ArmPat::StrLit(s) && v == s@
}

/// Checks the arms of the case dispatch in order, and hands back their
/// values, or the complaint about the first unacceptable one.
pub fn check_arms(arms: &Vec<ArmPat>) -> (r: Result<Vec<String>, CaseError>)
    ensures
        match r {
            Ok(values) => {
                &&& arms_ok(arms@)
                &&& values@.len() == arms@.len()
                &&& forall|k: int|
                    0 <= k < arms@.len() ==> arm_value(#[trigger] arms@[k], values@[k]@)
            },
            Err(e) => is_arms_error(arms@, e),
        },
{
    let mut values: Vec<String> = Vec::new();
    let mut k: usize = 0;
    while k < arms.len()
        invariant
            k <= arms@.len(),
            values@.len() == k,
            forall|j: int| 0 <= j < k ==> arm_ok(#[trigger] arms@[j]),
            forall|j: int| 0 <= j < k ==> arm_value(#[trigger] arms@[j], values@[j]@),
        decreases arms@.len() - k,
    {
        match &arms[k] {
            ArmPat::StrLit(s) => {
                if is_identifier_suffix(s.as_str()) {
                    values.push(s.clone());
                } else {
                    return Err(CaseError { arm: k, kind: CaseErrorKind::NotValidIdentifier });
                }
            },
            _ => {
                return Err(CaseError { arm: k, kind: CaseErrorKind::ExpectedStringLiteral });
            },
        }
        k += 1;
    }
    Ok(values)
}

/// Joins a test's name and a case's value with an underscore: the name of
/// the test generated for that case.
pub fn variant_name(base: &str, case: &str) -> (r: String)
    ensures
        r@ == base@ + "_"@ + case@,
{
    let mut r = base.to_owned();
    r.append("_");
    r.append(case);
    r
}

/// `v` is the variant generated for `arm`: the arm's value, and the test's
/// name extended by it.
pub open spec fn variant_ok(fn_name: Seq<char>, arm: ArmPat, v: Variant) -> bool {
    arm matches ArmPat::StrLit(s) && v.value@ == s@ && v.name@ == fn_name + "_"@ + s@
}

/// The arms of the statement at `i`, when it binds a `match CASE`.
pub open spec fn case_arms_at(stmts: Seq<StmtInfo>, i: int) -> Seq<ArmPat> {
    stmts[i].case_arms->0@
}

/// `p` is the rewrite's plan for a test named `fn_name` whose body is
/// `stmts`: a single test unless the first `match CASE` statement has arms,
/// and then one renamed test per arm, with the dispatch replaced only when
/// it stands before the split.
pub open spec fn plan_ok(fn_name: Seq<char>, stmts: Seq<StmtInfo>, p: Plan) -> bool {
    match p {
        Plan::Single { split_at } => {
            &&& is_async_split(stmts, split_at as int)
            &&& forall|i: int|
                is_first_case(stmts, i) ==> #[trigger] case_arms_at(stmts, i).len() == 0
        },
        Plan::Cases { split_at, case_stmt, replace_case, variants } => {
            &&& is_async_split(stmts, split_at as int)
            &&& is_first_case(stmts, case_stmt as int)
            &&& arms_ok(case_arms_at(stmts, case_stmt as int))
            &&& variants@.len() == case_arms_at(stmts, case_stmt as int).len()
            &&& variants@.len() > 0
            &&& replace_case == (case_stmt < split_at)
            &&& forall|k: int|
                0 <= k < variants@.len() ==> variant_ok(
                    fn_name,
                    case_arms_at(stmts, case_stmt as int)[k],
                    #[trigger] variants@[k],
                )
        },
    }
}

/// The rewrite refuses the body: the first `match CASE` statement has an
/// unacceptable arm, and `e` names the first one.
pub open spec fn plan_error(stmts: Seq<StmtInfo>, e: CaseError) -> bool {
    exists|i: int| #[trigger] is_first_case(stmts, i) && is_arms_error(case_arms_at(stmts, i), e)
}

/// Plans the rewrite of a test named `fn_name` whose body is `stmts`:
/// either the plan, or the complaint about the first unacceptable arm of
/// the case dispatch.
pub fn plan_expansion(fn_name: &str, stmts: &Vec<StmtInfo>) -> (r: Result<Plan, CaseError>)
    ensures
        match r {
            Ok(p) => plan_ok(fn_name@, stmts@, p),
            Err(e) => plan_error(stmts@, e),
        },
{
    let split_at = first_async_index(stmts);
    let found = find_case_stmt(stmts);
    match found {
        None => Ok(Plan::Single { split_at }),
        Some(ci) => {
            match &stmts[ci].case_arms {
                None => vstd::pervasive::unreached(),
                Some(arms) => {
                    if arms.len() == 0 {
                        proof {
                            lemma_first_case_unique(stmts@, ci as int);
                        }
                        Ok(Plan::Single { split_at })
                    } else {
                        match check_arms(arms) {
                            Err(e) => {
                                proof {
                                    assert(is_first_case(stmts@, ci as int)
                                        && is_arms_error(case_arms_at(stmts@, ci as int), e));
                                }
                                Err(e)
                            },
                            Ok(values) => {
                                let variants = build_variants(fn_name, arms, &values);
                                Ok(Plan::Cases {
                                    split_at,
                                    case_stmt: ci,
                                    replace_case: ci < split_at,
                                    variants,
                                })
                            },
                        }
                    }
                },
            }
        },
    }
}

/// The first `match CASE` statement is the only one the predicate admits.
proof fn lemma_first_case_unique(stmts: Seq<StmtInfo>, i: int)
    requires
        is_first_case(stmts, i),
    ensures
        forall|j: int| is_first_case(stmts, j) ==> j == i,
{
    assert forall|j: int| is_first_case(stmts, j) implies j == i by {
        if j < i {
            assert(stmts[j].case_arms is None);
        }
        if j > i {
            assert(stmts[i].case_arms is None);
        }
    }
}

/// Builds one variant per case value, in order, each named after the test
/// and the value.
fn build_variants(fn_name: &str, arms: &Vec<ArmPat>, values: &Vec<String>) -> (variants: Vec<
    Variant,
>)
    requires
        values@.len() == arms@.len(),
        forall|k: int| 0 <= k < arms@.len() ==> arm_value(#[trigger] arms@[k], values@[k]@),
    ensures
        variants@.len() == arms@.len(),
        forall|k: int|
            0 <= k < arms@.len() ==> variant_ok(fn_name@, arms@[k], #[trigger] variants@[k]),
{
    let mut variants: Vec<Variant> = Vec::new();
    let mut k: usize = 0;
    while k < values.len()
        invariant
            k <= values@.len(),
            values@.len() == arms@.len(),
            variants@.len() == k,
            forall|j: int| 0 <= j < arms@.len() ==> arm_value(#[trigger] arms@[j], values@[j]@),
            forall|j: int|
                0 <= j < k ==> variant_ok(fn_name@, arms@[j], #[trigger] variants@[j]),
        decreases values@.len() - k,
    {
        let name = variant_name(fn_name, values[k].as_str());
        let value = values[k].clone();
        variants.push(Variant { name, value });
        k += 1;
    }
    variants
}

} // verus!
