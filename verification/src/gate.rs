//! The content-type gate: decides, per response, whether the body is
//! captured and the response rebuilt.
//!
//! The decision is a pure function of the response's content-type text
//! and the configured allow-list: capture exactly when the ASCII-lowered
//! content type contains at least one allow-listed substring.  It never
//! fails, whatever the header value, the empty string included.

use vstd::prelude::*;
use vstd::string::*;
use crate::text::{lower_char, spec_lower};

verus! {

/// Whether `needle` occurs in `hay` as a contiguous run of characters.
pub open spec fn contains_seq(hay: Seq<char>, needle: Seq<char>) -> bool {
    exists|k: int|
        0 <= k && k + needle.len() <= hay.len() && #[trigger] hay.subrange(
            k,
            k + needle.len() as int,
        ) == needle
}

/// Whether the lowered content type contains some allow-listed substring.
pub open spec fn spec_should_capture(content_type: Seq<char>, allowed: Seq<Seq<char>>) -> bool {
    exists|i: int| 0 <= i < allowed.len() && contains_seq(spec_lower(content_type), allowed[i])
}

/// The characters of a string slice, as a vector.
fn chars_of(s: &str) -> (r: Vec<char>)
    ensures
        r@ == s@,
{
    let n = s.unicode_len();
    let mut r: Vec<char> = Vec::new();
    let mut i: usize = 0;
    while i < n
        invariant
            i <= n == s@.len(),
            r@ =~= s@.take(i as int),
        decreases n - i,
    {
        r.push(s.get_char(i));
        proof {
            assert(s@.take(i as int + 1) =~= s@.take(i as int).push(s@[i as int]));
        }
        i = i + 1;
    }
    proof {
        assert(s@.take(n as int) =~= s@);
    }
    r
}

/// The ASCII-lowered characters of a string slice, as a vector.
fn lower_chars_of(s: &str) -> (r: Vec<char>)
    ensures
        r@ == spec_lower(s@),
{
    let n = s.unicode_len();
    let mut r: Vec<char> = Vec::new();
    let mut i: usize = 0;
    while i < n
        invariant
            i <= n == s@.len(),
            r@ =~= spec_lower(s@).take(i as int),
        decreases n - i,
    {
        r.push(lower_char(s.get_char(i)));
        proof {
            assert(spec_lower(s@).take(i as int + 1) =~= spec_lower(s@).take(i as int).push(
                spec_lower(s@)[i as int],
            ));
        }
        i = i + 1;
    }
    proof {
        assert(spec_lower(s@).take(n as int) =~= spec_lower(s@));
    }
    r
}

/// Whether `needle` matches `hay` starting at position `k`.
fn match_at(hay: &Vec<char>, needle: &Vec<char>, k: usize) -> (r: bool)
    requires
        k + needle@.len() <= hay@.len(),
    ensures
        r == (hay@.subrange(k as int, k as int + needle@.len() as int) == needle@),
{
    let n = needle.len();
    let h = hay.len();
    let ghost sub = hay@.subrange(k as int, k as int + n as int);
    let mut j: usize = 0;
    while j < n
        invariant
            j <= n == needle@.len(),
            k + n <= h == hay@.len(),
            sub == hay@.subrange(k as int, k as int + n as int),
            forall|t: int| 0 <= t < j ==> hay@[k + t] == needle@[t],
        decreases n - j,
    {
        if hay[k + j] != needle[j] {
            proof {
                assert(sub[j as int] == hay@[k + j]);
                if sub == needle@ {
                    assert(sub[j as int] == needle@[j as int]);
                    assert(false);
                }
            }
            return false;
        }
        j = j + 1;
    }
    proof {
        assert(sub =~= needle@);
    }
    true
}

/// Whether `needle` occurs anywhere in `hay`.
fn contains_chars(hay: &Vec<char>, needle: &Vec<char>) -> (r: bool)
    ensures
        r == contains_seq(hay@, needle@),
{
    let n = needle.len();
    let h = hay.len();
    if n > h {
        proof {
            assert(!contains_seq(hay@, needle@));
        }
        return false;
    }
    if n == 0 {
        proof {
            assert(hay@.subrange(0, 0 + needle@.len() as int) =~= needle@);
            assert(contains_seq(hay@, needle@));
        }
        return true;
    }
    let mut k: usize = 0;
    while k <= h - n
        invariant
            1 <= n <= h == hay@.len(),
            n == needle@.len(),
            k <= h - n + 1,
            forall|k2: int|
                0 <= k2 < k ==> #[trigger] hay@.subrange(k2, k2 + needle@.len() as int)
                    != needle@,
        decreases h - n - k + 1,
    {
        if match_at(hay, needle, k) {
            proof {
                assert(contains_seq(hay@, needle@));
            }
            return true;
        }
        k = k + 1;
    }
    proof {
        if contains_seq(hay@, needle@) {
            let k2 = choose|k2: int|
                0 <= k2 && k2 + needle@.len() <= hay@.len() && #[trigger] hay@.subrange(
                    k2,
                    k2 + needle@.len() as int,
                ) == needle@;
            assert(k2 < k);
            assert(false);
        }
    }
    false
}

/// Decides whether a response body with the given content-type text is
/// captured: true exactly when the ASCII-lowered content type contains
/// at least one allow-listed substring.  Case-insensitive; never fails,
/// for the empty string included.
pub fn should_capture_content_type(content_type: &str, allowed: &Vec<String>) -> (r: bool)
    ensures
        r == spec_should_capture(content_type@, allowed.deep_view()),
{
    let lowered = lower_chars_of(content_type);
    let mut i: usize = 0;
    while i < allowed.len()
        invariant
            i <= allowed@.len(),
            lowered@ == spec_lower(content_type@),
            forall|i2: int|
                0 <= i2 < i ==> !contains_seq(
                    spec_lower(content_type@),
                    #[trigger] allowed.deep_view()[i2],
                ),
        decreases allowed@.len() - i,
    {
        let needle = chars_of(allowed[i].as_str());
        proof {
            assert(allowed.deep_view()[i as int] == allowed@[i as int]@);
        }
        if contains_chars(&lowered, &needle) {
            proof {
                assert(contains_seq(spec_lower(content_type@), allowed.deep_view()[i as int]));
            }
            return true;
        }
        i = i + 1;
    }
    proof {
        if spec_should_capture(content_type@, allowed.deep_view()) {
            let w = choose|w: int|
                0 <= w < allowed.deep_view().len() && contains_seq(
                    spec_lower(content_type@),
                    allowed.deep_view()[w],
                );
            assert(!contains_seq(spec_lower(content_type@), allowed.deep_view()[w]));
            assert(false);
        }
    }
    false
}

} // verus!
