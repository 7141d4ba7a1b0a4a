//! Box repository names of the image-acquisition tooling: a repository is
//! named `vendor/name`, with exactly one separator.

use vstd::prelude::*;
use vstd::string::StrSliceExecFns;
use vstd::string::StringExecFns;

use crate::conf::ConfError;
use crate::conf::ConfErrorView;

verus! {

/// How often `c` occurs in `s`.
pub open spec fn spec_count_char(s: Seq<char>, c: char) -> int
    decreases s.len(),
{
    if s.len() == 0 {
        0
    } else {
        (if s[0] == c {
            1int
        } else {
            0int
        }) + spec_count_char(s.drop_first(), c)
    }
}

proof fn lemma_count_char_zero(s: Seq<char>, c: char)
    requires
        forall|j: int| 0 <= j < s.len() ==> s[j] != c,
    ensures
        spec_count_char(s, c) == 0,
    decreases s.len(),
{
    if s.len() > 0 {
        lemma_count_char_zero(s.drop_first(), c);
    }
}

proof fn lemma_count_char_concat(a: Seq<char>, b: Seq<char>, c: char)
    ensures
        spec_count_char(a + b, c) == spec_count_char(a, c) + spec_count_char(b, c),
    decreases a.len(),
{
    if a.len() == 0 {
        assert(a + b =~= b);
    } else {
        lemma_count_char_concat(a.drop_first(), b, c);
        assert((a + b).drop_first() =~= a.drop_first() + b);
    }
}

proof fn lemma_count_char_ge_one(s: Seq<char>, c: char, i: int)
    requires
        0 <= i < s.len(),
        s[i] == c,
    ensures
        spec_count_char(s, c) >= 1,
    decreases s.len(),
{
    if i > 0 {
        lemma_count_char_ge_one(s.drop_first(), c, i - 1);
    }
    assert(spec_count_char(s.drop_first(), c) >= 0) by {
        lemma_count_char_nonneg(s.drop_first(), c);
    }
}

proof fn lemma_count_char_nonneg(s: Seq<char>, c: char)
    ensures
        spec_count_char(s, c) >= 0,
    decreases s.len(),
{
    if s.len() > 0 {
        lemma_count_char_nonneg(s.drop_first(), c);
    }
}

proof fn lemma_count_char_ge_two(s: Seq<char>, c: char, i: int, j: int)
    requires
        0 <= i < j < s.len(),
        s[i] == c,
        s[j] == c,
    ensures
        spec_count_char(s, c) >= 2,
    decreases s.len(),
{
    if i == 0 {
        lemma_count_char_ge_one(s.drop_first(), c, j - 1);
    } else {
        lemma_count_char_ge_two(s.drop_first(), c, i - 1, j - 1);
    }
}

/// Split a `vendor/name` repository name at its separator. Any other shape
/// — no separator, or more than one — is a fatal invalid-name error.
pub fn parse_repo_name(repo_name: &str) -> (r: Result<(String, String), ConfError>)
    ensures
        match r {
            Ok(p) => {
                &&& spec_count_char(repo_name@, '/') == 1
                &&& repo_name@ == p.0@ + seq!['/'] + p.1@
                &&& spec_count_char(p.0@, '/') == 0
            },
            Err(e) => spec_count_char(repo_name@, '/') != 1 && e.deep_view()
                == (ConfErrorView::InvalidRepoName { name: repo_name@ }),
        },
{
    let len = repo_name.unicode_len();
    let mut k: usize = 0;
    while k < len
        invariant
            k <= len,
            len == repo_name@.len(),
            forall|j: int| 0 <= j < k ==> repo_name@[j] != '/',
        ensures
            k <= len,
            len == repo_name@.len(),
            forall|j: int| 0 <= j < k ==> repo_name@[j] != '/',
            k < len ==> repo_name@[k as int] == '/',
        decreases len - k,
    {
        if repo_name.get_char(k) == '/' {
            break;
        }
        k += 1;
    }
    if k == len {
        proof {
            lemma_count_char_zero(repo_name@, '/');
        }
        return Err(ConfError::InvalidRepoName { name: repo_name.to_owned() });
    }
    let mut j: usize = k + 1;
    while j < len
        invariant
            k < j <= len,
            len == repo_name@.len(),
            repo_name@[k as int] == '/',
            forall|m: int| k < m < j ==> repo_name@[m] != '/',
        ensures
            k < j <= len,
            len == repo_name@.len(),
            repo_name@[k as int] == '/',
            forall|m: int| k < m < j ==> repo_name@[m] != '/',
            j < len ==> repo_name@[j as int] == '/',
        decreases len - j,
    {
        if repo_name.get_char(j) == '/' {
            break;
        }
        j += 1;
    }
    if j < len {
        proof {
            lemma_count_char_ge_two(repo_name@, '/', k as int, j as int);
        }
        return Err(ConfError::InvalidRepoName { name: repo_name.to_owned() });
    }
    let vendor = repo_name.substring_char(0, k).to_owned();
    let name = repo_name.substring_char(k + 1, len).to_owned();
    proof {
        assert(repo_name@ =~= vendor@ + seq!['/'] + name@);
        lemma_count_char_zero(vendor@, '/');
        lemma_count_char_zero(name@, '/');
        lemma_count_char_concat(vendor@, seq!['/'] + name@, '/');
        lemma_count_char_concat(seq!['/'], name@, '/');
        assert(spec_count_char(seq!['/'], '/') == 1) by {
            assert(seq!['/'].drop_first() =~= Seq::<char>::empty());
            assert(spec_count_char(Seq::<char>::empty(), '/') == 0);
        }
        assert(repo_name@ == vendor@ + (seq!['/'] + name@));
        assert(vendor@ + seq!['/'] + name@ =~= vendor@ + (seq!['/'] + name@));
    }
    Ok((vendor, name))
}

} // verus!
