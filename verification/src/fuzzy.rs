//! The fuzzy search stage: approximate matching of the query against the
//! candidate lines, done by an outside crate behind one trusted wrapper.

use vstd::prelude::*;

verus! {

/// The candidate lines, in input order, whose similarity to the query
/// reaches the search threshold.  The exact scoring is the outside crate's
/// trigram algorithm; this name stands for its result, which is a function
/// of the query and the candidate lines alone.
pub uninterp spec fn fuzzy_matches(query: Seq<char>, lines: Seq<Seq<char>>) -> Seq<Seq<char>>;

/// Relies on `rust_fuzzy_search::fuzzy_search_threshold`: it scores every
/// candidate line against the query by trigram overlap and keeps, in input
/// order, exactly those whose score reaches the given minimum, here the
/// fixed threshold of two fifths.  The scoring reads nothing but its
/// arguments, so the result depends on the query and the candidates alone.
#[verifier::external_body]
pub(crate) fn fuzzy_filter(query: &Vec<char>, lines: &Vec<String>) -> (r: Vec<String>)
    ensures
        r@.map_values(|l: String| l@) == fuzzy_matches(
            query@,
            lines@.map_values(|l: String| l@),
        ),
{
    let q: String = query.iter().collect();
    let refs: Vec<&str> = lines.iter().map(|l| l.as_str()).collect();
    rust_fuzzy_search::fuzzy_search_threshold(&q, &refs, "0.4".parse().unwrap())
        .into_iter()
        .map(|(line, _score)| line.to_string())
        .collect()
}

} // verus!
