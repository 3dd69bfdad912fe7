use vstd::prelude::*;

verus! {

/// A character that may appear in a host name: an ASCII letter or digit, a
/// hyphen, or the dot that separates labels.
pub open spec fn is_hostname_char(c: char) -> bool {
    ('a' <= c && c <= 'z') || ('A' <= c && c <= 'Z') || ('0' <= c && c <= '9') || c == '-' || c
        == '.'
}

/// The number of consecutive non-dot characters of `s` that end just before
/// position `i`: the length of the label being read at `i`.
pub open spec fn run_before(s: Seq<char>, i: int) -> nat
    decreases i,
{
    if i <= 0 || s[i - 1] == '.' {
        0
    } else {
        run_before(s, i - 1) + 1
    }
}

/// A host name in the sense of RFC 1123: 1 to 253 characters, dot-separated
/// labels of 1 to 63 letters, digits and hyphens, no label beginning or
/// ending with a hyphen.
pub open spec fn valid_hostname(s: Seq<char>) -> bool {
    &&& 1 <= s.len() <= 253
    &&& forall|i: int| 0 <= i < s.len() ==> is_hostname_char(#[trigger] s[i])
    // no empty label: no leading, trailing or doubled dot
    &&& forall|i: int|
        0 <= i < s.len() && #[trigger] s[i] == '.' ==> 0 < i && s[i - 1] != '.' && i + 1 < s.len()
    // hyphens only inside a label
    &&& forall|i: int|
        0 <= i < s.len() && #[trigger] s[i] == '-' ==> 0 < i && s[i - 1] != '.' && i + 1 < s.len()
            && s[i + 1] != '.'
    // labels of at most 63 characters
    &&& forall|i: int| 0 <= i <= s.len() ==> #[trigger] run_before(s, i) <= 63
}

/// Whether `host` is a valid host name; the probe-log search filters on a
/// host only when it is one.
pub fn is_valid_hostname(host: &String) -> (b: bool)
    ensures
        b == valid_hostname(host@),
{
    let s = host.as_str();
    let n = s.unicode_len();
    if n == 0 || n > 253 {
        return false;
    }
    let mut run: usize = 0;
    let mut i: usize = 0;
    while i < n
        invariant
            s@ == host@,
            n == s@.len(),
            1 <= n <= 253,
            i <= n,
            run == run_before(s@, i as int),
            forall|j: int| 0 <= j < i ==> is_hostname_char(#[trigger] s@[j]),
            forall|j: int|
                0 <= j < i && #[trigger] s@[j] == '.' ==> 0 < j && s@[j - 1] != '.' && j + 1
                    < s@.len(),
            forall|j: int|
                0 <= j < i && #[trigger] s@[j] == '-' ==> 0 < j && s@[j - 1] != '.' && j + 1
                    < s@.len() && s@[j + 1] != '.',
            forall|j: int| 0 <= j <= i ==> #[trigger] run_before(s@, j) <= 63,
        decreases n - i,
    {
        let c = s.get_char(i);
        if !(('a' <= c && c <= 'z') || ('A' <= c && c <= 'Z') || ('0' <= c && c <= '9') || c == '-'
            || c == '.') {
            assert(!is_hostname_char(s@[i as int]));
            return false;
        }
        if c == '.' {
            if i == 0 || i + 1 == n {
                return false;
            }
            if s.get_char(i - 1) == '.' {
                return false;
            }
            run = 0;
        } else {
            if c == '-' {
                if i == 0 || i + 1 == n {
                    return false;
                }
                if s.get_char(i - 1) == '.' || s.get_char(i + 1) == '.' {
                    return false;
                }
            }
            if run == 63 {
                assert(run_before(s@, i + 1) == 64);
                return false;
            }
            run = run + 1;
        }
        i = i + 1;
    }
    true
}

} // verus!
