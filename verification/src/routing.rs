//! Inbound match patterns and path rewriting.
//!
//! A pattern is a sequence of literal path segments, optionally followed by a
//! trailing wildcard that matches any remaining segments (zero or more). A
//! rewrite rule replaces the matched literal prefix with its own segments and
//! keeps the wildcard tail.

use vstd::prelude::*;

verus! {

/// An HTTP-style request method.
#[derive(Clone, Copy, Debug, PartialEq, Eq, Structural)]
pub enum Method {
    Get,
    Head,
    Post,
    Put,
    Delete,
    Patch,
    Options,
}

/// An inbound path pattern: literal segments, optionally ending in a wildcard
/// that matches any tail.
pub struct PathPattern {
    /// The literal segments that must match the start of the path.
    pub segments: Vec<String>,
    /// When true, the pattern also matches any segments after the literal
    /// prefix (zero or more); when false, the path must consist of exactly
    /// the literal segments.
    pub wildcard: bool,
}

/// When `pat` (with trailing-wildcard flag `wildcard`) matches `path`.
pub open spec fn spec_pattern_matches(
    pat: Seq<Seq<char>>,
    wildcard: bool,
    path: Seq<Seq<char>>,
) -> bool {
    if wildcard {
        pat.len() <= path.len() && pat == path.take(pat.len() as int)
    } else {
        pat == path
    }
}

/// The outbound path produced by rewriting a matched path: the rewrite
/// segments, followed by the wildcard tail when the pattern had one.
pub open spec fn spec_rewritten_path(
    rewrite: Seq<Seq<char>>,
    pat_len: int,
    wildcard: bool,
    path: Seq<Seq<char>>,
) -> Seq<Seq<char>> {
    if wildcard {
        rewrite + path.skip(pat_len)
    } else {
        rewrite
    }
}

impl PathPattern {
    /// When this pattern matches `path`.
    pub open spec fn spec_matches(&self, path: Seq<Seq<char>>) -> bool {
        spec_pattern_matches(self.segments.deep_view(), self.wildcard, path)
    }

    /// Decides whether this pattern matches the given path segments.
    pub fn matches(&self, path: &Vec<String>) -> (r: bool)
        ensures
            r == self.spec_matches(path.deep_view()),
    {
        let plen = self.segments.len();
        if self.wildcard {
            if path.len() < plen {
                assert(self.segments.deep_view().len() == plen);
                return false;
            }
        } else {
            if path.len() != plen {
                assert(self.segments.deep_view().len() == plen);
                assert(path.deep_view().len() == path@.len());
                return false;
            }
        }
        let mut i: usize = 0;
        while i < plen
            invariant
                i <= plen,
                plen == self.segments@.len(),
                plen <= path@.len(),
                forall|j: int|
                    0 <= j < i ==> self.segments.deep_view()[j] == #[trigger] path.deep_view()[j],
            decreases plen - i,
        {
            if !(self.segments[i] == path[i]) {
                proof {
                    let pd = self.segments.deep_view();
                    let hd = path.deep_view();
                    assert(pd[i as int] == self.segments@[i as int]@);
                    assert(hd[i as int] == path@[i as int]@);
                    if self.wildcard {
                        assert(hd.take(plen as int)[i as int] == hd[i as int]);
                    }
                }
                return false;
            }
            proof {
                assert(self.segments.deep_view()[i as int] == self.segments@[i as int]@);
                assert(path.deep_view()[i as int] == path@[i as int]@);
            }
            i = i + 1;
        }
        proof {
            let pd = self.segments.deep_view();
            let hd = path.deep_view();
            if self.wildcard {
                assert(pd =~= hd.take(plen as int));
            } else {
                assert(pd =~= hd);
            }
        }
        true
    }
}

/// Rewrites a path that matched `pattern`: copies the rewrite segments, then
/// appends the wildcard tail of the original path when the pattern had one.
pub fn rewrite_path(rewrite: &Vec<String>, pattern: &PathPattern, path: &Vec<String>) -> (r: Vec<
    String,
>)
    requires
        pattern.spec_matches(path.deep_view()),
    ensures
        r.deep_view() == spec_rewritten_path(
            rewrite.deep_view(),
            pattern.segments@.len() as int,
            pattern.wildcard,
            path.deep_view(),
        ),
{
    let mut out: Vec<String> = Vec::new();
    let rlen = rewrite.len();
    let mut i: usize = 0;
    while i < rlen
        invariant
            i <= rlen,
            rlen == rewrite@.len(),
            out@.len() == i,
            forall|k: int| 0 <= k < i ==> (#[trigger] out@[k])@ == rewrite@[k]@,
        decreases rlen - i,
    {
        out.push(rewrite[i].clone());
        i = i + 1;
    }
    if pattern.wildcard {
        let plen = pattern.segments.len();
        let mut j: usize = plen;
        while j < path.len()
            invariant
                plen <= j <= path@.len(),
                plen == pattern.segments@.len(),
                rlen == rewrite@.len(),
                out@.len() == rlen + (j - plen),
                forall|k: int| 0 <= k < rlen ==> (#[trigger] out@[k])@ == rewrite@[k]@,
                forall|k: int|
                    rlen <= k < out@.len() ==> (#[trigger] out@[k])@ == path@[plen + (k - rlen)]@,
            decreases path@.len() - j,
        {
            out.push(path[j].clone());
            j = j + 1;
        }
    }
    proof {
        let target = spec_rewritten_path(
            rewrite.deep_view(),
            pattern.segments@.len() as int,
            pattern.wildcard,
            path.deep_view(),
        );
        assert(out.deep_view() =~= target);
    }
    out
}

/// The text form of a segment path appended to a base address: one `/`
/// before each segment.
pub open spec fn spec_joined_path(path: Seq<Seq<char>>) -> Seq<char>
    decreases path.len(),
{
    if path.len() == 0 {
        Seq::empty()
    } else {
        spec_joined_path(path.drop_last()) + "/"@ + path.last()
    }
}

/// Renders the full outbound target: the base address followed by `/` and
/// each path segment in order.
pub fn outbound_target(base: &str, path: &Vec<String>) -> (r: String)
    ensures
        r@ == base@ + spec_joined_path(path.deep_view()),
{
    let mut out = base.to_owned();
    let n = path.len();
    let mut i: usize = 0;
    while i < n
        invariant
            i <= n,
            n == path@.len(),
            out@ == base@ + spec_joined_path(path.deep_view().take(i as int)),
        decreases n - i,
    {
        out.append("/");
        out.append(path[i].as_str());
        proof {
            let pd = path.deep_view();
            assert(pd.take(i + 1 as int).drop_last() =~= pd.take(i as int));
            assert(pd.take(i + 1 as int).last() == pd[i as int]);
            assert(pd[i as int] == path@[i as int]@);
            assert(out@ == base@ + spec_joined_path(pd.take(i + 1 as int)));
        }
        i = i + 1;
    }
    proof {
        assert(path.deep_view().take(n as int) =~= path.deep_view());
    }
    out
}

} // verus!
