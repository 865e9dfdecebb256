//! The command-line surface's decisions: which of the given names are
//! queried, and what a run with no usable arguments does. The outside work
//! (reading arguments, printing, fetching) stays with the caller; the
//! decisions here are pure.

use vstd::prelude::*;
use crate::numtext::is_digit;

verus! {

/// Whether a character is a decimal digit or a decimal point.
pub open spec fn is_digit_or_dot(c: char) -> bool {
    is_digit(c) || c == '.'
}

/// Whether a name is numeric-like: every character is a decimal digit or a
/// decimal point. Such a name is not a valid compound name and is filtered
/// out before querying.
pub open spec fn is_numeric_name(s: Seq<char>) -> bool {
    forall|i: int| 0 <= i < s.len() ==> is_digit_or_dot(#[trigger] s[i])
}

/// Decide whether a name is numeric-like.
pub fn name_is_numeric(s: &str) -> (r: bool)
    ensures
        r == is_numeric_name(s@),
{
    let n = s.unicode_len();
    let mut i: usize = 0;
    while i < n
        invariant
            n == s@.len(),
            0 <= i <= n,
            forall|j: int| 0 <= j < i ==> is_digit_or_dot(#[trigger] s@[j]),
        decreases n - i,
    {
        let c = s.get_char(i);
        let d = c == '.' || c == '0' || c == '1' || c == '2' || c == '3' || c == '4' || c == '5'
            || c == '6' || c == '7' || c == '8' || c == '9';
        if !d {
            proof {
                assert(!is_digit_or_dot(s@[i as int]));
            }
            return false;
        }
        i = i + 1;
    }
    true
}

/// The names that survive filtering, in their original relative order:
/// exactly those that are not numeric-like.
pub open spec fn spec_filter_names(ss: Seq<Seq<char>>) -> Seq<Seq<char>>
    decreases ss.len(),
{
    if ss.len() == 0 {
        Seq::empty()
    } else {
        spec_filter_names(ss.drop_last()) + (if !is_numeric_name(ss.last()) {
            seq![ss.last()]
        } else {
            Seq::empty()
        })
    }
}

/// Filter the given names: a numeric-like name is dropped, the others keep
/// their original relative order.
pub fn filter_names(names: &Vec<String>) -> (r: Vec<String>)
    ensures
        r@.map_values(|s: String| s@) == spec_filter_names(names@.map_values(|s: String| s@)),
{
    let ghost nv = names@.map_values(|s: String| s@);
    let mut out: Vec<String> = Vec::new();
    let mut i: usize = 0;
    while i < names.len()
        invariant
            nv == names@.map_values(|s: String| s@),
            0 <= i <= names@.len(),
            out@.map_values(|s: String| s@) == spec_filter_names(nv.take(i as int)),
        decreases names@.len() - i,
    {
        proof {
            assert(nv.take(i as int + 1).drop_last() =~= nv.take(i as int));
            assert(nv.take(i as int + 1).last() == nv[i as int]);
        }
        if !name_is_numeric(names[i].as_str()) {
            let ghost prev = out@.map_values(|s: String| s@);
            out.push(names[i].clone());
            proof {
                assert(out@.map_values(|s: String| s@) =~= prev + seq![nv[i as int]]);
            }
        }
        i = i + 1;
    }
    proof {
        assert(nv.take(names@.len() as int) =~= nv);
    }
    out
}

/// What a run does, given the names on the command line.
pub enum RunPlan {
    /// No argument was given: print the usage line and do nothing else.
    Usage,
    /// Every argument was numeric-like: report it and do nothing else.
    NoValidNames,
    /// Query these names, in order.
    Query(Vec<String>),
}

/// Decide what a run does. With no arguments, the usage line; with
/// arguments but no valid name, the error report; else the filtered
/// queries, in their original relative order.
pub fn plan_run(args: &Vec<String>) -> (r: RunPlan)
    ensures
        args@.len() == 0 ==> r is Usage,
        args@.len() > 0 && spec_filter_names(args@.map_values(|s: String| s@)).len() == 0
            ==> r is NoValidNames,
        spec_filter_names(args@.map_values(|s: String| s@)).len() > 0 ==> (r matches
        RunPlan::Query(ns) && ns@.map_values(|s: String| s@) == spec_filter_names(
            args@.map_values(|s: String| s@),
        )),
{
    if args.len() == 0 {
        return RunPlan::Usage;
    }
    let names = filter_names(args);
    if names.len() == 0 {
        return RunPlan::NoValidNames;
    }
    RunPlan::Query(names)
}

/// The usage line printed when no argument is given.
pub fn usage_message() -> (r: String)
    ensures
        r@ == "usage: compound_report <compound-name> [<compound-name> ...]"@,
{
    "usage: compound_report <compound-name> [<compound-name> ...]".to_owned()
}

/// The report printed when every argument was numeric-like.
pub fn no_valid_names_message() -> (r: String)
    ensures
        r@ == "error: none of the given names is a valid compound name"@,
{
    "error: none of the given names is a valid compound name".to_owned()
}

/// The diagnostic printed when the response holds no result for a name.
pub fn no_result_message(name: &str) -> (r: String)
    ensures
        r@ == "no result for this query: "@ + name@,
{
    let mut s = "no result for this query: ".to_owned();
    s.append(name);
    s
}

/// The diagnostic printed when a compound has no conformer to plot.
pub fn no_conformers_message() -> (r: String)
    ensures
        r@ == "No conformers available for plotting."@,
{
    "No conformers available for plotting.".to_owned()
}

} // verus!
