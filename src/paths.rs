use vstd::prelude::*;

verus! {

/// `b` appended to `a` as a path component: a separator goes between them
/// unless `a` is empty or already ends in one.
pub open spec fn join(a: Seq<char>, b: Seq<char>) -> Seq<char> {
    if a.len() == 0 || a.last() == '/' {
        a + b
    } else {
        a + seq!['/'] + b
    }
}

/// `p` ends with `f`.
pub open spec fn ends_with(p: Seq<char>, f: Seq<char>) -> bool {
    p.len() >= f.len() && p.subrange(p.len() - f.len(), p.len() as int) == f
}

pub proof fn lemma_join_ends_with(a: Seq<char>, b: Seq<char>)
    ensures
        ends_with(join(a, b), b),
{
    let p = join(a, b);
    if a.len() == 0 || a.last() == '/' {
        assert(p.subrange(p.len() - b.len(), p.len() as int) =~= b);
    } else {
        assert(p.subrange(p.len() - b.len(), p.len() as int) =~= b);
    }
}

/// `a` and `b` joined as path components.
pub fn join_path(a: &str, b: &str) -> (r: String)
    ensures
        r@ == join(a@, b@),
{
    let n = a.unicode_len();
    if n == 0 || a.get_char(n - 1) == '/' {
        String::from_str(a).concat(b)
    } else {
        proof {
            reveal_strlit("/");
        }
        String::from_str(a).concat("/").concat(b)
    }
}

/// A file name that names one entry of a directory: non-empty, neither `.`
/// nor `..`, and free of separators and NUL.
pub open spec fn valid_file_name(s: Seq<char>) -> bool {
    &&& s.len() > 0
    &&& s != seq!['.']
    &&& s != seq!['.', '.']
    &&& forall|i: int| 0 <= i < s.len() ==> (#[trigger] s[i] != '/' && s[i] != '\\' && s[i] != '\0')
}

/// Whether `s` is a valid file name.
pub fn check_file_name(s: &str) -> (r: bool)
    ensures
        r == valid_file_name(s@),
{
    let n = s.unicode_len();
    if n == 0 {
        return false;
    }
    if n == 1 && s.get_char(0) == '.' {
        assert(s@ =~= seq!['.']);
        return false;
    }
    if n == 2 && s.get_char(0) == '.' && s.get_char(1) == '.' {
        assert(s@ =~= seq!['.', '.']);
        return false;
    }
    assert(n == 1 ==> s@ != seq!['.'] ) by {
        if n == 1 && s@ == seq!['.'] {
            assert(s@[0] == seq!['.'][0]);
        }
    }
    assert(n == 2 ==> s@ != seq!['.', '.']) by {
        if n == 2 && s@ == seq!['.', '.'] {
            assert(s@[0] == seq!['.', '.'][0] && s@[1] == seq!['.', '.'][1]);
        }
    }
    let mut i: usize = 0;
    while i < n
        invariant
            n == s@.len(),
            i <= n,
            forall|j: int| 0 <= j < i ==> (#[trigger] s@[j] != '/' && s@[j] != '\\' && s@[j] != '\0'),
        decreases n - i,
    {
        let c = s.get_char(i);
        if c == '/' || c == '\\' || c == '\0' {
            return false;
        }
        i = i + 1;
    }
    true
}

} // verus!
