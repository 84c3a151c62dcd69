//! The building blocks of the status column: a text with a fallback, a pair
//! of counts, a count with its unit, the readiness of a node.

use vstd::prelude::*;
use crate::decimal::{decimal, push_decimal};

verus! {

/// The text of `value`, or `fallback` where there is none.
pub open spec fn text_or(value: Option<String>, fallback: Seq<char>) -> Seq<char> {
    match value {
        Some(text) => text@,
        None => fallback,
    }
}

/// A count, or zero where none was reported.
pub open spec fn count_or_zero(value: Option<i32>) -> int {
    match value {
        Some(n) => n as int,
        None => 0,
    }
}

/// Two counts written as `first/second`.
pub open spec fn ratio_text(first: int, second: int) -> Seq<char> {
    decimal(first).push('/') + decimal(second)
}

/// A number of entries written as `N keys`.
pub open spec fn keys_text(entries: int) -> Seq<char> {
    decimal(entries) + " keys"@
}

/// A copy of the text in `value`, or of `fallback` where there is none.
pub fn text_or_else(value: &Option<String>, fallback: &str) -> (text: String)
    ensures
        text@ == text_or(*value, fallback@),
{
    match value {
        Some(text) => text.clone(),
        None => String::from_str(fallback),
    }
}

/// The count in `value`, or zero where there is none.
pub fn or_zero(value: Option<i32>) -> (count: i32)
    ensures
        count == count_or_zero(value),
{
    match value {
        Some(n) => n,
        None => 0,
    }
}

/// Writes two counts as `first/second`.
pub fn format_ratio(first: i32, second: i32) -> (text: String)
    ensures
        text@ == ratio_text(first as int, second as int),
{
    let mut text = String::new();
    push_decimal(&mut text, first as i128);
    proof {
        reveal_strlit("/");
    }
    text.append("/");
    push_decimal(&mut text, second as i128);
    assert(text@ =~= ratio_text(first as int, second as int));
    text
}

/// Writes a number of entries as `N keys`.
pub fn format_keys(entries: usize) -> (text: String)
    ensures
        text@ == keys_text(entries as int),
{
    let mut text = String::new();
    push_decimal(&mut text, entries as i128);
    text.append(" keys");
    assert(text@ =~= keys_text(entries as int));
    text
}

/// One condition a node reports about itself.
#[derive(Debug, Clone)]
pub struct NodeCondition {
    pub type_: String,
    pub status: String,
}

/// The status of the first condition of type `Ready`, if the node reports
/// one.
pub open spec fn ready_status(conditions: Seq<NodeCondition>) -> Option<Seq<char>>
    decreases conditions.len(),
{
    if conditions.len() == 0 {
        None
    } else if conditions[0].type_@ == "Ready"@ {
        Some(conditions[0].status@)
    } else {
        ready_status(conditions.drop_first())
    }
}

/// Conditions that are not of type `Ready` do not change what a node's
/// readiness is read from.
pub proof fn lemma_ready_status_skip(conditions: Seq<NodeCondition>, n: int)
    requires
        0 <= n <= conditions.len(),
        forall|i: int| 0 <= i < n ==> conditions[i].type_@ != "Ready"@,
    ensures
        ready_status(conditions) == ready_status(conditions.skip(n)),
    decreases n,
{
    if n == 0 {
        assert(conditions.skip(0) =~= conditions);
    } else {
        lemma_ready_status_skip(conditions.drop_first(), n - 1);
        assert(conditions.drop_first().skip(n - 1) =~= conditions.skip(n));
    }
}

/// Looks up the node's `Ready` condition and hands back its status.
pub fn find_ready(conditions: &Vec<NodeCondition>) -> (status: Option<String>)
    ensures
        crate::resources::text_of(status) == ready_status(conditions@),
{
    let wanted = String::from_str("Ready");
    let mut i: usize = 0;
    while i < conditions.len()
        invariant
            i <= conditions.len(),
            wanted@ == "Ready"@,
            forall|k: int| 0 <= k < i ==> conditions@[k].type_@ != "Ready"@,
        decreases conditions.len() - i,
    {
        if conditions[i].type_ == wanted {
            proof {
                lemma_ready_status_skip(conditions@, i as int);
            }
            return Some(conditions[i].status.clone());
        }
        i += 1;
    }
    proof {
        lemma_ready_status_skip(conditions@, i as int);
    }
    None
}

} // verus!
