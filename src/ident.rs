use vstd::prelude::*;

use crate::quote::chars_of;

verus! {

/// Why a name was refused as a node or cluster identifier.
#[derive(Clone, Copy, Debug, PartialEq, Eq, Structural)]
pub enum IdentifierError {
    /// The name is empty, starts with a character that may not lead, or holds
    /// a character outside letters, digits, `_` (and `.` for nodes).
    Malformed,
    /// A well-formed subgraph name that does not start with `cluster_`.
    MissingClusterPrefix,
}

pub open spec fn is_letter_or_underscore(c: char) -> bool {
    ('a' <= c && c <= 'z') || ('A' <= c && c <= 'Z') || c == '_'
}

pub open spec fn is_digit(c: char) -> bool {
    '0' <= c && c <= '9'
}

/// `[A-Za-z_][A-Za-z_0-9]*`, where `dots` also lets `.` stand anywhere.
pub open spec fn is_identifier(s: Seq<char>, dots: bool) -> bool {
    &&& s.len() > 0
    &&& is_letter_or_underscore(s[0]) || (dots && s[0] == '.')
    &&& forall|i: int|
        1 <= i < s.len() ==> is_letter_or_underscore(#[trigger] s[i]) || is_digit(s[i]) || (dots
            && s[i] == '.')
}

/// The legal names of nodes: letters, digits, `_` and `.`, not led by a digit.
pub open spec fn is_node_name(s: Seq<char>) -> bool {
    is_identifier(s, true)
}

pub open spec fn cluster_prefix() -> Seq<char> {
    seq!['c', 'l', 'u', 's', 't', 'e', 'r', '_']
}

/// The legal names of subgraphs: an identifier without dots that starts with `cluster_`.
pub open spec fn is_cluster_name(s: Seq<char>) -> bool {
    is_identifier(s, false) && cluster_prefix().is_prefix_of(s)
}

fn scan_identifier(v: &Vec<char>, dots: bool) -> (r: bool)
    ensures
        r == is_identifier(v@, dots),
{
    if v.len() == 0 {
        return false;
    }
    let c = v[0];
    let lead = ('a' <= c && c <= 'z') || ('A' <= c && c <= 'Z') || c == '_' || (dots && c == '.');
    if !lead {
        return false;
    }
    let mut i: usize = 1;
    while i < v.len()
        invariant
            1 <= i <= v@.len(),
            is_letter_or_underscore(v@[0]) || (dots && v@[0] == '.'),
            forall|j: int|
                1 <= j < i ==> is_letter_or_underscore(#[trigger] v@[j]) || is_digit(v@[j]) || (
                dots && v@[j] == '.'),
        decreases v.len() - i,
    {
        let c = v[i];
        let ok = ('a' <= c && c <= 'z') || ('A' <= c && c <= 'Z') || c == '_' || ('0' <= c && c
            <= '9') || (dots && c == '.');
        if !ok {
            return false;
        }
        i = i + 1;
    }
    true
}

/// Checks `name` against the node grammar and hands it back unchanged when it passes.
pub fn validate_node_name(name: &str) -> (r: Result<String, IdentifierError>)
    ensures
        is_node_name(name@) ==> r is Ok && r->Ok_0@ == name@,
        !is_node_name(name@) ==> r == Err::<String, IdentifierError>(IdentifierError::Malformed),
{
    let v = chars_of(name);
    if scan_identifier(&v, true) {
        Ok(name.to_owned())
    } else {
        Err(IdentifierError::Malformed)
    }
}

/// Checks `name` against the subgraph grammar and hands it back unchanged when
/// it passes; a malformed name is reported before a missing prefix.
pub fn validate_cluster_name(name: &str) -> (r: Result<String, IdentifierError>)
    ensures
        is_cluster_name(name@) ==> r is Ok && r->Ok_0@ == name@,
        !is_identifier(name@, false) ==> r == Err::<String, IdentifierError>(
            IdentifierError::Malformed,
        ),
        is_identifier(name@, false) && !cluster_prefix().is_prefix_of(name@) ==> r == Err::<
            String,
            IdentifierError,
        >(IdentifierError::MissingClusterPrefix),
{
    let v = chars_of(name);
    if !scan_identifier(&v, false) {
        return Err(IdentifierError::Malformed);
    }
    let prefixed = v.len() >= 8 && v[0] == 'c' && v[1] == 'l' && v[2] == 'u' && v[3] == 's' && v[4]
        == 't' && v[5] == 'e' && v[6] == 'r' && v[7] == '_';
    if prefixed {
        assert(cluster_prefix() =~= v@.take(8));
        Ok(name.to_owned())
    } else {
        proof {
            if cluster_prefix().is_prefix_of(v@) {
                assert(v@[0] == cluster_prefix()[0]);
                assert(v@[1] == cluster_prefix()[1]);
                assert(v@[2] == cluster_prefix()[2]);
                assert(v@[3] == cluster_prefix()[3]);
                assert(v@[4] == cluster_prefix()[4]);
                assert(v@[5] == cluster_prefix()[5]);
                assert(v@[6] == cluster_prefix()[6]);
                assert(v@[7] == cluster_prefix()[7]);
            }
        }
        Err(IdentifierError::MissingClusterPrefix)
    }
}

/// A name that starts with a digit, or holds a space, a bracket, a brace or a
/// quote, is neither a node name nor a cluster name.
pub proof fn lemma_rejected_names(s: Seq<char>, i: int)
    requires
        0 <= i < s.len(),
        (i == 0 && is_digit(s[i])) || s[i] == ' ' || s[i] == '[' || s[i] == ']' || s[i] == '{'
            || s[i] == '}' || s[i] == '"',
    ensures
        !is_node_name(s),
        !is_cluster_name(s),
{
    if i > 0 {
        assert(!(is_letter_or_underscore(s[i]) || is_digit(s[i]) || s[i] == '.'));
    }
}

} // verus!
