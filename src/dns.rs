use vstd::prelude::*;
use vstd::string::*;

verus! {

/// The longest a DNS name may be, in characters.
pub const MAX_NAME_LEN: usize = 253;

/// The longest a single label of a DNS name may be, in characters.
pub const MAX_LABEL_LEN: usize = 63;

/// A letter, a digit or a hyphen: the characters a label may hold.
pub open spec fn is_ldh(c: char) -> bool {
    ('a' <= c && c <= 'z') || ('A' <= c && c <= 'Z') || ('0' <= c && c <= '9') || c == '-'
}

/// Checks whether `c` may stand in a label.
pub fn is_label_char(c: char) -> (r: bool)
    ensures
        r == is_ldh(c),
{
    ('a' <= c && c <= 'z') || ('A' <= c && c <= 'Z') || ('0' <= c && c <= '9') || c == '-'
}

/// Every character is ASCII.
pub open spec fn all_ascii(s: Seq<char>) -> bool {
    forall|i: int| 0 <= i < s.len() ==> (s[i] as u32) < 128
}

/// The length of the run of label characters that ends just before `i`.
pub open spec fn run_before(s: Seq<char>, i: int) -> int
    decreases i,
{
    if i <= 0 || i > s.len() {
        0
    } else if s[i - 1] == '.' {
        0
    } else {
        1 + run_before(s, i - 1)
    }
}

/// A syntactically valid DNS name: dot-separated labels of letters, digits
/// and hyphens, each label non-empty, at most 63 characters long and neither
/// starting nor ending with a hyphen; the whole name is 1 to 253 characters.
pub open spec fn is_dns_name(s: Seq<char>) -> bool {
    &&& 1 <= s.len() <= MAX_NAME_LEN
    &&& forall|i: int| 0 <= i < s.len() ==> is_ldh(#[trigger] s[i]) || s[i] == '.'
    &&& forall|i: int|
        0 <= i < s.len() && (#[trigger] s[i] == '.' || s[i] == '-') ==> 0 < i < s.len() - 1
            && s[i - 1] != '.' && s[i + 1] != '.'
    &&& forall|i: int| 0 <= i <= s.len() ==> #[trigger] run_before(s, i) <= MAX_LABEL_LEN
}

/// A DNS name is ASCII.
pub proof fn lemma_dns_name_is_ascii(s: Seq<char>)
    requires
        is_dns_name(s),
    ensures
        all_ascii(s),
{
    assert forall|i: int| 0 <= i < s.len() implies (s[i] as u32) < 128 by {
        assert(is_ldh(s[i]) || s[i] == '.');
    }
}

/// Checks whether `name` is a syntactically valid DNS name.
pub fn is_valid_dns_name(name: &str) -> (r: bool)
    ensures
        r == is_dns_name(name@),
{
    let n = name.unicode_len();
    if n == 0 || n > MAX_NAME_LEN {
        return false;
    }
    let mut run: usize = 0;
    let mut prev: char = '.';
    let mut i: usize = 0;
    while i < n
        invariant
            n == name@.len(),
            1 <= n <= MAX_NAME_LEN,
            0 <= i <= n,
            run == run_before(name@, i as int),
            run <= MAX_LABEL_LEN,
            i == 0 ==> prev == '.',
            i > 0 ==> prev == name@[i - 1],
            forall|j: int| 0 <= j < i ==> is_ldh(#[trigger] name@[j]) || name@[j] == '.',
            forall|j: int|
                0 <= j < i && (#[trigger] name@[j] == '.' || name@[j] == '-') ==> 0 < j && name@[j
                    - 1] != '.',
            forall|j: int|
                0 <= j < i - 1 && (#[trigger] name@[j] == '.' || name@[j] == '-') ==> name@[j + 1]
                    != '.',
            forall|j: int| 0 <= j <= i ==> #[trigger] run_before(name@, j) <= MAX_LABEL_LEN,
        decreases n - i,
    {
        let c = name.get_char(i);
        if !(is_label_char(c) || c == '.') {
            return false;
        }
        if (c == '.' || c == '-') && prev == '.' {
            return false;
        }
        if c == '.' && prev == '-' {
            return false;
        }
        if c == '.' {
            run = 0;
        } else {
            if run == MAX_LABEL_LEN {
                assert(run_before(name@, i + 1) > MAX_LABEL_LEN);
                return false;
            }
            run = run + 1;
        }
        prev = c;
        i = i + 1;
    }
    if prev == '.' || prev == '-' {
        return false;
    }
    true
}

} // verus!
