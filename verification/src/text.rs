//! Small text operations that the protocol rules are built from, each with
//! its meaning as a function on sequences of characters.

use vstd::prelude::*;
use vstd::string::*;

verus! {

/// `s` without the slashes at its end.
pub open spec fn trim_end_slashes(s: Seq<char>) -> Seq<char>
    decreases s.len(),
{
    if s.len() > 0 && s.last() == '/' {
        trim_end_slashes(s.drop_last())
    } else {
        s
    }
}

/// `s` without the slashes at its start.
pub open spec fn trim_start_slashes(s: Seq<char>) -> Seq<char>
    decreases s.len(),
{
    if s.len() > 0 && s[0] == '/' {
        trim_start_slashes(s.drop_first())
    } else {
        s
    }
}

/// The first `n` characters of `s`, or all of `s` where it has fewer.
pub open spec fn take_chars(s: Seq<char>, n: nat) -> Seq<char> {
    if s.len() <= n {
        s
    } else {
        s.subrange(0, n as int)
    }
}

/// What is left of a text after trimming its end is a prefix of it that does
/// not end in a slash, and only slashes were removed.
pub proof fn lemma_trim_end_slashes(s: Seq<char>)
    ensures
        trim_end_slashes(s).len() <= s.len(),
        trim_end_slashes(s) == s.subrange(0, trim_end_slashes(s).len() as int),
        trim_end_slashes(s).len() > 0 ==> trim_end_slashes(s).last() != '/',
        forall|i: int| trim_end_slashes(s).len() <= i < s.len() ==> s[i] == '/',
    decreases s.len(),
{
    if s.len() > 0 && s.last() == '/' {
        let shorter = s.drop_last();
        lemma_trim_end_slashes(shorter);
        let kept = trim_end_slashes(shorter);
        assert(kept == s.subrange(0, kept.len() as int));
        assert forall|i: int| kept.len() <= i < s.len() implies s[i] == '/' by {
            if i < shorter.len() {
                assert(shorter[i] == s[i]);
            }
        }
    } else {
    }
}

/// What is left of a text after trimming its start is a suffix of it that
/// does not start with a slash, and only slashes were removed.
pub proof fn lemma_trim_start_slashes(s: Seq<char>)
    ensures
        trim_start_slashes(s).len() <= s.len(),
        trim_start_slashes(s) == s.subrange(
            s.len() - trim_start_slashes(s).len(),
            s.len() as int,
        ),
        trim_start_slashes(s).len() > 0 ==> trim_start_slashes(s)[0] != '/',
        forall|i: int| 0 <= i < s.len() - trim_start_slashes(s).len() ==> s[i] == '/',
    decreases s.len(),
{
    if s.len() > 0 && s[0] == '/' {
        let shorter = s.drop_first();
        lemma_trim_start_slashes(shorter);
        let kept = trim_start_slashes(shorter);
        let skipped = s.len() - kept.len();
        assert(kept == s.subrange(skipped, s.len() as int)) by {
            assert(shorter.subrange(shorter.len() - kept.len(), shorter.len() as int)
                =~= s.subrange(skipped, s.len() as int));
        }
        assert forall|i: int| 0 <= i < skipped implies s[i] == '/' by {
            if i > 0 {
                assert(shorter[i - 1] == s[i]);
            }
        }
    } else {
    }
}

/// A number in decimal, without leading zeros.
pub open spec fn decimal_text(n: nat) -> Seq<char>
    decreases n,
{
    if n < 10 {
        seq!["0123456789"@[n as int]]
    } else {
        decimal_text(n / 10) + seq!["0123456789"@[(n % 10) as int]]
    }
}

/// Copies a text.
pub fn owned(s: &str) -> (r: String)
    ensures
        r@ == s@,
{
    s.to_owned()
}

/// The text without its trailing slashes.
pub fn strip_trailing_slashes(s: &str) -> (r: String)
    ensures
        r@ == trim_end_slashes(s@),
{
    let len: usize = s.unicode_len();
    let mut end: usize = len;
    assert(s@.subrange(0, len as int) =~= s@);
    while end > 0 && s.get_char(end - 1) == '/'
        invariant
            len == s@.len(),
            end <= len,
            trim_end_slashes(s@) == trim_end_slashes(s@.subrange(0, end as int)),
        decreases end,
    {
        proof {
            let head = s@.subrange(0, end as int);
            assert(head.drop_last() =~= s@.subrange(0, end - 1));
        }
        end = end - 1;
    }
    owned(s.substring_char(0, end))
}

/// The text without its leading slashes.
pub fn strip_leading_slashes(s: &str) -> (r: String)
    ensures
        r@ == trim_start_slashes(s@),
{
    let len: usize = s.unicode_len();
    let mut start: usize = 0;
    assert(s@.subrange(0, len as int) =~= s@);
    while start < len && s.get_char(start) == '/'
        invariant
            len == s@.len(),
            start <= len,
            trim_start_slashes(s@) == trim_start_slashes(s@.subrange(start as int, len as int)),
        decreases len - start,
    {
        proof {
            let tail = s@.subrange(start as int, len as int);
            assert(tail.drop_first() =~= s@.subrange(start + 1, len as int));
        }
        start = start + 1;
    }
    owned(s.substring_char(start, len))
}

/// The first `n` characters of the text.
pub fn first_chars(s: &str, n: usize) -> (r: String)
    ensures
        r@ == take_chars(s@, n as nat),
{
    let len: usize = s.unicode_len();
    if len <= n {
        owned(s)
    } else {
        owned(s.substring_char(0, n))
    }
}

/// Two texts joined.
pub fn join2(a: &str, b: &str) -> (r: String)
    ensures
        r@ == a@ + b@,
{
    let mut out: String = owned(a);
    out.append(b);
    out
}

/// Three texts joined.
pub fn join3(a: &str, b: &str, c: &str) -> (r: String)
    ensures
        r@ == a@ + b@ + c@,
{
    let mut out: String = owned(a);
    out.append(b);
    out.append(c);
    out
}

/// A number in decimal.
pub fn decimal(n: u64) -> (r: String)
    ensures
        r@ == decimal_text(n as nat),
    decreases n,
{
    let digits = "0123456789";
    proof {
        reveal_strlit("0123456789");
    }
    if n < 10 {
        let at: usize = n as usize;
        let digit = digits.substring_char(at, at + 1);
        owned(digit)
    } else {
        let at: usize = (n % 10) as usize;
        let digit = digits.substring_char(at, at + 1);
        let mut out = decimal(n / 10);
        out.append(digit);
        out
    }
}

} // verus!
