//! The entry flow's decisions: argument parsing and the suite-file list.
//!
//! The harness takes exactly three positional arguments: the token
//! endpoint, the token request body, and a colon-separated list of suite
//! file paths. Fetching the token, reading the files and running the
//! suites is the caller's I/O; the arity check and the split are decided
//! here.

use crate::error::{Error, ErrorKind};
use vstd::prelude::*;
use vstd::string::StringExecFns;

verus! {

broadcast use vstd::std_specs::vec::group_vec_axioms, vstd::seq::group_seq_axioms;

/// The segments joined with `:` between them.
pub open spec fn joined_colon(segments: Seq<Seq<char>>) -> Seq<char>
    decreases segments.len(),
{
    if segments.len() == 0 {
        Seq::empty()
    } else if segments.len() == 1 {
        segments[0]
    } else {
        joined_colon(segments.drop_last()) + seq![':'] + segments.last()
    }
}

/// The models of a sequence of strings, element by element.
pub open spec fn string_views(s: Seq<String>) -> Seq<Seq<char>>
    decreases s.len(),
{
    if s.len() == 0 {
        Seq::empty()
    } else {
        string_views(s.drop_last()).push(s.last()@)
    }
}

/// `string_views` maps the model element by element.
pub proof fn lemma_string_views(s: Seq<String>)
    ensures
        string_views(s).len() == s.len(),
        forall|i: int| 0 <= i < s.len() ==> string_views(s)[i] == s[i]@,
    decreases s.len(),
{
    if s.len() > 0 {
        lemma_string_views(s.drop_last());
    }
}

/// Splits a string at every colon. The result is the unique colon-free
/// segment list that joins back to the input; a string without colons is
/// one segment, and every colon separates two segments.
pub fn split_colon(s: &str) -> (r: Vec<String>)
    ensures
        r@.len() >= 1,
        forall|i: int, j: int| 0 <= i < r@.len() && 0 <= j < r@[i]@.len()
            ==> #[trigger] (r@[i]@[j]) != ':',
        joined_colon(string_views(r@)) == s@,
{
    let n = s.unicode_len();
    let mut segments: Vec<String> = Vec::new();
    let mut current = String::new();
    let mut i: usize = 0;
    while i < n
        invariant
            n == s@.len(),
            i <= n,
            forall|k: int, j: int| 0 <= k < segments@.len() && 0 <= j < segments@[k]@.len()
                ==> #[trigger] (segments@[k]@[j]) != ':',
            forall|j: int| 0 <= j < current@.len() ==> (#[trigger] current@[j]) != ':',
            joined_colon(string_views(segments@).push(current@)) == s@.take(i as int),
        decreases n - i,
    {
        let c = s.get_char(i);
        proof {
            lemma_string_views(segments@);
            assert(s@.take(i + 1).drop_last() =~= s@.take(i as int));
            assert(s@.take(i + 1).last() == s@[i as int]);
        }
        if c == ':' {
            let ghost old_segments = segments@;
            let ghost old_current = current@;
            segments.push(current);
            current = String::new();
            proof {
                assert(segments@.drop_last() =~= old_segments);
                assert(string_views(segments@) =~= string_views(old_segments).push(old_current));
                assert(string_views(segments@).push(current@).drop_last() =~= string_views(
                    segments@,
                ));
                assert(joined_colon(string_views(segments@).push(current@)) =~= s@.take(i + 1));
            }
        } else {
            let ghost old_current = current@;
            current.push(c);
            proof {
                let sv = string_views(segments@);
                assert(sv.push(current@).drop_last() =~= sv);
                assert(sv.push(old_current).drop_last() =~= sv);
                if sv.len() == 0 {
                    assert(joined_colon(sv.push(current@)) =~= s@.take(i + 1));
                } else {
                    assert(joined_colon(sv.push(current@)) == joined_colon(sv) + seq![':']
                        + current@);
                    assert(joined_colon(sv.push(old_current)) == joined_colon(sv) + seq![':']
                        + old_current);
                    assert(joined_colon(sv.push(current@)) =~= s@.take(i + 1));
                }
            }
        }
        i = i + 1;
    }
    let ghost last_segments = segments@;
    let ghost last_current = current@;
    segments.push(current);
    proof {
        assert(s@.take(n as int) =~= s@);
        assert(segments@.drop_last() =~= last_segments);
        assert(string_views(segments@) =~= string_views(last_segments).push(last_current));
    }
    segments
}

/// The three positional arguments of an invocation.
#[derive(Debug)]
pub struct Arguments {
    pub token_request_uri: String,
    pub token_request_body: String,
    pub test_suite_files: Vec<String>,
}

/// Parses the command line: the program name followed by exactly three
/// positional arguments — token endpoint, token request body, and the
/// colon-separated suite file list. Any other arity is refused.
pub fn parse_arguments(arguments: &Vec<String>) -> (r: Result<Arguments, Error>)
    ensures
        r is Ok <==> arguments@.len() == 4,
        r is Ok ==> {
            &&& r->Ok_0.token_request_uri@ == arguments@[1]@
            &&& r->Ok_0.token_request_body@ == arguments@[2]@
            &&& r->Ok_0.test_suite_files@.len() >= 1
            &&& joined_colon(string_views(r->Ok_0.test_suite_files@)) == arguments@[3]@
            &&& forall|i: int, j: int| 0 <= i < r->Ok_0.test_suite_files@.len() && 0 <= j
                < r->Ok_0.test_suite_files@[i]@.len()
                ==> #[trigger] (r->Ok_0.test_suite_files@[i]@[j]) != ':'
        },
        r is Err ==> r->Err_0.kind == ErrorKind::InternalFailure && r->Err_0.message@
            == "no test file provided"@,
{
    if arguments.len() != 4 {
        return Err(Error::new(ErrorKind::InternalFailure, "no test file provided".to_owned()));
    }
    let token_request_uri = arguments[1].clone();
    let token_request_body = arguments[2].clone();
    let test_suite_files = split_colon(arguments[3].as_str());
    Ok(Arguments { token_request_uri, token_request_body, test_suite_files })
}

} // verus!
