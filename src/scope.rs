use vstd::prelude::*;

verus! {

/// A character allowed in a scope token (RFC 6749 NQCHAR).
pub open spec fn is_scope_char(c: char) -> bool {
    c == '\x21' || ('\x23' <= c && c <= '\x5b') || ('\x5d' <= c && c <= '\x7e')
}

/// A non-empty run of scope characters.
pub open spec fn is_scope_token(t: Seq<char>) -> bool {
    t.len() > 0 && forall|i: int| 0 <= i < t.len() ==> is_scope_char(#[trigger] t[i])
}

/// Scope text: tokens separated by single spaces, with no leading or
/// trailing space.
pub open spec fn is_scope_text(s: Seq<char>) -> bool {
    &&& s.len() > 0
    &&& s[0] != ' '
    &&& s[s.len() - 1] != ' '
    &&& forall|i: int|
        0 <= i < s.len() ==> is_scope_char(#[trigger] s[i]) || (s[i] == ' ' && i > 0 && s[i
            - 1] != ' ')
}

/// The tokens joined with single spaces.
pub open spec fn join_scope(v: Seq<Seq<char>>) -> Seq<char>
    decreases v.len(),
{
    if v.len() == 0 {
        Seq::empty()
    } else if v.len() == 1 {
        v[0]
    } else {
        join_scope(v.drop_last()) + seq![' '] + v.last()
    }
}

/// The tokens of a scope, as texts.
pub open spec fn scope_view(v: Seq<String>) -> Seq<Seq<char>> {
    v.map_values(|t: String| t@)
}

/// The set of tokens of a scope.
pub open spec fn scope_set(v: Seq<String>) -> Set<Seq<char>> {
    Set::new(|t: Seq<char>| exists|i: int| 0 <= i < v.len() && #[trigger] v[i]@ == t)
}

pub fn is_scope_char_exec(c: char) -> (r: bool)
    ensures
        r == is_scope_char(c),
{
    c == '\x21' || ('\x23' <= c && c <= '\x5b') || ('\x5d' <= c && c <= '\x7e')
}

/// Splits scope text into its tokens, or rejects text that is not a valid
/// scope.
pub fn parse_scope(s: &str) -> (r: Option<Vec<String>>)
    ensures
        r is Some <==> is_scope_text(s@),
        r matches Some(v) ==> join_scope(scope_view(v@)) == s@ && v@.len() > 0 && forall|i: int|
            0 <= i < v@.len() ==> is_scope_token(#[trigger] v@[i]@),
{
    let n = s.unicode_len();
    if n == 0 {
        return None;
    }
    let mut tokens: Vec<String> = Vec::new();
    let mut start: usize = 0;
    let mut i: usize = 0;
    while i < n
        invariant
            n == s@.len(),
            n > 0,
            start <= i <= n,
            start == 0 <==> tokens@.len() == 0,
            tokens@.len() > 0 ==> join_scope(scope_view(tokens@)) + seq![' '] == s@.subrange(
                0,
                start as int,
            ),
            tokens@.len() > 0 ==> s@[start - 1] == ' ',
            forall|k: int| 0 <= k < tokens@.len() ==> is_scope_token(#[trigger] tokens@[k]@),
            forall|j: int| start <= j < i ==> is_scope_char(#[trigger] s@[j]),
            forall|j: int|
                0 <= j < i ==> is_scope_char(#[trigger] s@[j]) || (s@[j] == ' ' && j > 0 && s@[j
                    - 1] != ' '),
        decreases n - i,
    {
        let c = s.get_char(i);
        if c == ' ' {
            if i == start {
                assert(!is_scope_text(s@)) by {
                    if i > 0 {
                        assert(s@[i - 1] == ' ');
                        assert(!(is_scope_char(s@[i as int]) || (s@[i as int] == ' ' && i > 0
                            && s@[i - 1] != ' ')));
                    }
                }
                return None;
            }
            let t = s.substring_char(start, i);
            let ghost old_tokens = tokens@;
            tokens.push(t.to_owned());
            proof {
                assert(scope_view(tokens@).drop_last() =~= scope_view(old_tokens));
                assert(is_scope_token(tokens@[tokens@.len() - 1]@));
                if old_tokens.len() == 0 {
                    assert(join_scope(scope_view(tokens@)) =~= s@.subrange(0, i as int));
                } else {
                    assert(join_scope(scope_view(tokens@)) =~= join_scope(scope_view(old_tokens))
                        + seq![' '] + t@);
                }
                assert(join_scope(scope_view(tokens@)) + seq![' '] =~= s@.subrange(
                    0,
                    i + 1,
                ));
            }
            start = i + 1;
        } else if !is_scope_char_exec(c) {
            assert(!is_scope_text(s@)) by {
                assert(!(is_scope_char(s@[i as int]) || (s@[i as int] == ' ' && i > 0 && s@[i
                    - 1] != ' ')));
            }
            return None;
        }
        i = i + 1;
    }
    if start == n {
        assert(s@[n - 1] == ' ');
        return None;
    }
    let t = s.substring_char(start, n);
    let ghost old_tokens = tokens@;
    tokens.push(t.to_owned());
    proof {
        assert(scope_view(tokens@).drop_last() =~= scope_view(old_tokens));
        assert(is_scope_token(tokens@[tokens@.len() - 1]@));
        if old_tokens.len() == 0 {
            assert(join_scope(scope_view(tokens@)) =~= s@);
        } else {
            assert(join_scope(scope_view(tokens@)) =~= join_scope(scope_view(old_tokens))
                + seq![' '] + t@);
            assert(join_scope(scope_view(tokens@)) =~= s@);
        }
        assert(s@[0] != ' ') by {
            if s@[0] == ' ' {
                assert(!(is_scope_char(s@[0]) || (s@[0] == ' ' && 0 > 0)));
            }
        }
        assert(is_scope_char(s@[n - 1]));
    }
    Some(tokens)
}

/// The scope as text: its tokens joined with single spaces.
pub fn join_scope_text(v: &Vec<String>) -> (r: String)
    ensures
        r@ == join_scope(scope_view(v@)),
{
    let mut r = String::new();
    let mut i: usize = 0;
    while i < v.len()
        invariant
            i <= v@.len(),
            r@ == join_scope(scope_view(v@.subrange(0, i as int))),
        decreases v@.len() - i,
    {
        let ghost prev = scope_view(v@.subrange(0, i as int));
        if i == 0 {
            r = v[i].clone();
        } else {
            r = r.concat(" ").concat(v[i].as_str());
            proof {
                reveal_strlit(" ");
            }
        }
        proof {
            let next = scope_view(v@.subrange(0, i + 1));
            assert(next.drop_last() =~= prev);
            assert(next.last() == v@[i as int]@);
            if i == 0 {
                assert(next.len() == 1);
            } else {
                assert(r@ =~= join_scope(prev) + seq![' '] + v@[i as int]@);
            }
        }
        i = i + 1;
    }
    assert(v@.subrange(0, v@.len() as int) =~= v@);
    r
}

/// A copy of a scope.
pub fn clone_scope(v: &Vec<String>) -> (r: Vec<String>)
    ensures
        r@ == v@,
{
    let mut r: Vec<String> = Vec::new();
    let mut i: usize = 0;
    while i < v.len()
        invariant
            i <= v@.len(),
            r@ == v@.subrange(0, i as int),
        decreases v@.len() - i,
    {
        r.push(v[i].clone());
        assert(r@ =~= v@.subrange(0, i + 1));
        i = i + 1;
    }
    assert(r@ =~= v@);
    r
}

/// Whether a scope holds a token.
pub fn scope_contains(v: &Vec<String>, t: &String) -> (r: bool)
    ensures
        r == scope_set(v@).contains(t@),
{
    let mut i: usize = 0;
    while i < v.len()
        invariant
            i <= v@.len(),
            forall|j: int| 0 <= j < i ==> v@[j]@ != t@,
        decreases v@.len() - i,
    {
        if v[i] == *t {
            assert(scope_set(v@).contains(t@)) by {
                assert(v@[i as int]@ == t@);
            }
            return true;
        }
        i = i + 1;
    }
    false
}

} // verus!
