use vstd::prelude::*;

verus! {

/// Whether two strings hold the same characters.
pub fn same_text(a: &str, b: &str) -> (r: bool)
    ensures
        r == (a@ == b@),
{
    let n = a.unicode_len();
    if n != b.unicode_len() {
        return false;
    }
    let mut i: usize = 0;
    while i < n
        invariant
            n == a@.len(),
            n == b@.len(),
            i <= n,
            forall|j: int| 0 <= j < i ==> a@[j] == b@[j],
        decreases n - i,
    {
        if a.get_char(i) != b.get_char(i) {
            return false;
        }
        i = i + 1;
    }
    assert(a@ =~= b@);
    true
}

/// The code of a character with ASCII upper case letters mapped to lower case.
pub open spec fn ascii_lower(c: char) -> int {
    if 65 <= (c as u32) <= 90 {
        (c as u32) as int + 32
    } else {
        (c as u32) as int
    }
}

/// Equality up to the case of ASCII letters.
pub open spec fn eq_ignore_ascii_case(a: Seq<char>, b: Seq<char>) -> bool {
    a.len() == b.len() && forall|i: int| 0 <= i < a.len() ==> ascii_lower(a[i]) == ascii_lower(b[i])
}

fn lower_code(c: char) -> (r: u32)
    ensures
        r == ascii_lower(c),
{
    let x = c as u32;
    if 65 <= x && x <= 90 {
        x + 32
    } else {
        x
    }
}

/// Whether two strings are equal up to the case of ASCII letters.
pub fn same_text_ignore_ascii_case(a: &str, b: &str) -> (r: bool)
    ensures
        r == eq_ignore_ascii_case(a@, b@),
{
    let n = a.unicode_len();
    if n != b.unicode_len() {
        return false;
    }
    let mut i: usize = 0;
    while i < n
        invariant
            n == a@.len(),
            n == b@.len(),
            i <= n,
            forall|j: int| 0 <= j < i ==> ascii_lower(a@[j]) == ascii_lower(b@[j]),
        decreases n - i,
    {
        if lower_code(a.get_char(i)) != lower_code(b.get_char(i)) {
            return false;
        }
        i = i + 1;
    }
    true
}

/// Index of the first `c` in `s`, if any.
pub open spec fn first_index_of(s: Seq<char>, c: char) -> Option<int> {
    if exists|i: int| 0 <= i < s.len() && s[i] == c {
        Some(choose|i: int| 0 <= i < s.len() && s[i] == c && forall|j: int| 0 <= j < i ==> s[j] != c)
    } else {
        None
    }
}

/// `s` split at its first `c`: the part before it and the part after it.
pub open spec fn split_once_spec(s: Seq<char>, c: char) -> Option<(Seq<char>, Seq<char>)> {
    match first_index_of(s, c) {
        Some(i) => Some((s.subrange(0, i), s.subrange(i + 1, s.len() as int))),
        None => None,
    }
}

/// Splits `s` at its first `c`.
pub fn split_once(s: &str, c: char) -> (r: Option<(String, String)>)
    ensures
        match r {
            Some(p) => split_once_spec(s@, c) == Some((p.0@, p.1@)),
            None => split_once_spec(s@, c) is None,
        },
{
    let n = s.unicode_len();
    let mut i: usize = 0;
    while i < n
        invariant
            n == s@.len(),
            i <= n,
            forall|j: int| 0 <= j < i ==> s@[j] != c,
        decreases n - i,
    {
        if s.get_char(i) == c {
            proof {
                let k = choose|k: int| 0 <= k < s@.len() && s@[k] == c && forall|j: int| 0 <= j < k ==> s@[j] != c;
                assert(0 <= i < s@.len() && s@[i as int] == c && forall|j: int| 0 <= j < i ==> s@[j] != c);
                if k < i {
                    assert(s@[k] != c);
                } else if k > i {
                    assert(s@[i as int] != c);
                }
                assert(k == i);
            }
            let before = s.substring_char(0, i).to_owned();
            let after = s.substring_char(i + 1, n).to_owned();
            return Some((before, after));
        }
        i = i + 1;
    }
    None
}

/// White space as Unicode's White_Space property lists it.
pub open spec fn is_white(c: char) -> bool {
    let x = c as u32;
    (9 <= x <= 13) || x == 32 || x == 0x85 || x == 0xA0 || x == 0x1680 || (0x2000 <= x <= 0x200A)
        || x == 0x2028 || x == 0x2029 || x == 0x202F || x == 0x205F || x == 0x3000
}

fn white(c: char) -> (r: bool)
    ensures
        r == is_white(c),
{
    let x = c as u32;
    (9 <= x && x <= 13) || x == 32 || x == 0x85 || x == 0xA0 || x == 0x1680 || (0x2000 <= x && x
        <= 0x200A) || x == 0x2028 || x == 0x2029 || x == 0x202F || x == 0x205F || x == 0x3000
}

/// The first position at or after `i` that holds no white space (or the end).
pub open spec fn skip_white(s: Seq<char>, i: int) -> int
    decreases s.len() - i,
{
    if i < 0 || i >= s.len() {
        s.len() as int
    } else if is_white(s[i]) {
        skip_white(s, i + 1)
    } else {
        i
    }
}

/// The first position at or after `i` that holds white space (or the end).
pub open spec fn skip_word(s: Seq<char>, i: int) -> int
    decreases s.len() - i,
{
    if i < 0 || i >= s.len() {
        s.len() as int
    } else if !is_white(s[i]) {
        skip_word(s, i + 1)
    } else {
        i
    }
}

/// Where the first two white-space separated words of `s` start and end.
pub open spec fn first_word_start(s: Seq<char>) -> int {
    skip_white(s, 0)
}

pub open spec fn first_word_end(s: Seq<char>) -> int {
    skip_word(s, first_word_start(s))
}

pub open spec fn second_word_start(s: Seq<char>) -> int {
    skip_white(s, first_word_end(s))
}

pub open spec fn second_word_end(s: Seq<char>) -> int {
    skip_word(s, second_word_start(s))
}

/// The first two words of `s`, when it has at least two.
pub open spec fn two_words_spec(s: Seq<char>) -> Option<(Seq<char>, Seq<char>)> {
    if second_word_start(s) < s.len() {
        Some(
            (
                s.subrange(first_word_start(s), first_word_end(s)),
                s.subrange(second_word_start(s), second_word_end(s)),
            ),
        )
    } else {
        None
    }
}

proof fn lemma_skip_bounds(s: Seq<char>, i: int)
    requires
        0 <= i <= s.len(),
    ensures
        i <= skip_white(s, i) <= s.len(),
        i <= skip_word(s, i) <= s.len(),
    decreases s.len() - i,
{
    if i < s.len() {
        lemma_skip_bounds(s, i + 1);
    }
}

fn skip_from(s: &str, n: usize, start: usize, word: bool) -> (r: usize)
    requires
        n == s@.len(),
        start <= n,
    ensures
        word ==> r == skip_word(s@, start as int),
        !word ==> r == skip_white(s@, start as int),
{
    let mut i = start;
    while i < n && white(s.get_char(i)) != word
        invariant
            n == s@.len(),
            start <= i <= n,
            word ==> skip_word(s@, i as int) == skip_word(s@, start as int),
            !word ==> skip_white(s@, i as int) == skip_white(s@, start as int),
        decreases n - i,
    {
        i = i + 1;
    }
    i
}

/// The first two white-space separated words of `s`, if it has two.
pub fn two_words(s: &str) -> (r: Option<(String, String)>)
    ensures
        match r {
            Some(p) => two_words_spec(s@) == Some((p.0@, p.1@)),
            None => two_words_spec(s@) is None,
        },
{
    let n = s.unicode_len();
    let a0 = skip_from(s, n, 0, false);
    proof { lemma_skip_bounds(s@, 0); }
    let e0 = skip_from(s, n, a0, true);
    proof { lemma_skip_bounds(s@, a0 as int); }
    let a1 = skip_from(s, n, e0, false);
    proof { lemma_skip_bounds(s@, e0 as int); }
    if a1 >= n {
        return None;
    }
    let e1 = skip_from(s, n, a1, true);
    proof { lemma_skip_bounds(s@, a1 as int); }
    let first = s.substring_char(a0, e0).to_owned();
    let second = s.substring_char(a1, e1).to_owned();
    Some((first, second))
}

/// Whether `s` begins with `p`.
pub open spec fn starts_with_spec(s: Seq<char>, p: Seq<char>) -> bool {
    p.len() <= s.len() && s.subrange(0, p.len() as int) == p
}

} // verus!
