use vstd::prelude::*;
use crate::text::starts_with_spec;

verus! {

/// A named set of variables.
#[derive(Debug)]
pub struct Environment {
    pub name: String,
    pub values: Vec<(String, String)>,
}

pub open spec fn env_marker() -> Seq<char> {
    seq!['.', 'e', 'n', 'v', '.']
}

/// `s` with every `.env.` taken out, scanning from the left.
pub open spec fn strip_env_marker(s: Seq<char>) -> Seq<char>
    decreases s.len(),
{
    if s.len() == 0 {
        s
    } else if starts_with_spec(s, env_marker()) {
        strip_env_marker(s.subrange(5, s.len() as int))
    } else {
        seq![s[0]] + strip_env_marker(s.subrange(1, s.len() as int))
    }
}

fn marker_at(s: &str, n: usize, i: usize) -> (r: bool)
    requires
        n == s@.len(),
        i <= n,
    ensures
        r == starts_with_spec(s@.subrange(i as int, n as int), env_marker()),
{
    if n - i < 5 {
        return false;
    }
    let ok = s.get_char(i) == '.' && s.get_char(i + 1) == 'e' && s.get_char(i + 2) == 'n'
        && s.get_char(i + 3) == 'v' && s.get_char(i + 4) == '.';
    assert(ok == (s@.subrange(i as int, n as int).subrange(0, 5) =~= env_marker()));
    ok
}

/// The name of an environment read from a file: the file name with `.env.` taken out.
pub fn environment_name(file_name: &str) -> (r: String)
    ensures
        r@ == strip_env_marker(file_name@),
{
    let n = file_name.unicode_len();
    let mut out = String::new();
    let mut i: usize = 0;
    assert(file_name@.subrange(0, n as int) =~= file_name@);
    assert(out@ + strip_env_marker(file_name@) =~= strip_env_marker(file_name@));
    while i < n
        invariant
            n == file_name@.len(),
            i <= n,
            out@ + strip_env_marker(file_name@.subrange(i as int, n as int)) == strip_env_marker(
                file_name@,
            ),
        decreases n - i,
    {
        let ghost rest = file_name@.subrange(i as int, n as int);
        if marker_at(file_name, n, i) {
            assert(rest.subrange(5, rest.len() as int) =~= file_name@.subrange(i + 5, n as int));
            i = i + 5;
        } else {
            assert(rest.subrange(1, rest.len() as int) =~= file_name@.subrange(i + 1, n as int));
            let ghost before = out@;
            out.append(file_name.substring_char(i, i + 1));
            assert(file_name@.subrange(i as int, i + 1) =~= seq![rest[0]]);
            assert(out@ + strip_env_marker(file_name@.subrange(i + 1, n as int)) =~= before + (seq![rest[0]]
                + strip_env_marker(rest.subrange(1, rest.len() as int))));
            i = i + 1;
        }
    }
    assert(file_name@.subrange(n as int, n as int) =~= Seq::<char>::empty());
    assert(out@ + Seq::<char>::empty() =~= out@);
    out
}

impl Environment {
    /// An environment made from the pairs read out of the file `file_name`.
    pub fn from_file(file_name: &str, values: Vec<(String, String)>) -> (r: Environment)
        ensures
            r.name@ == strip_env_marker(file_name@),
            r.values == values,
    {
        Environment { name: environment_name(file_name), values }
    }
}

} // verus!
