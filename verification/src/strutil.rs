//! Small verified string utilities shared by the parsers and the router:
//! whole-string comparison, prefix tests, first-occurrence substring
//! search, and a character-membership test.

use vstd::prelude::*;

verus! {

/// `p` is a prefix of `s`.
pub open spec fn spec_starts_with(s: Seq<char>, p: Seq<char>) -> bool {
    p.len() <= s.len() && s.subrange(0, p.len() as int) == p
}

/// Index of the first occurrence of `p` in `s`, if any.  An empty pattern
/// occurs at index zero.
pub open spec fn spec_find(s: Seq<char>, p: Seq<char>) -> Option<int>
    decreases s.len(),
{
    if spec_starts_with(s, p) {
        Some(0int)
    } else if s.len() == 0 {
        None
    } else {
        match spec_find(s.drop_first(), p) {
            Some(i) => Some(i + 1),
            None => None,
        }
    }
}

/// `p` occurs somewhere in `s`.
pub open spec fn spec_contains(s: Seq<char>, p: Seq<char>) -> bool {
    spec_find(s, p) is Some
}

/// A found occurrence lies within the string.
pub proof fn lemma_spec_find_bound(s: Seq<char>, p: Seq<char>)
    ensures
        spec_find(s, p) matches Some(i) ==> 0 <= i && i + p.len() <= s.len(),
    decreases s.len(),
{
    if !spec_starts_with(s, p) && s.len() > 0 {
        lemma_spec_find_bound(s.drop_first(), p);
    }
}

/// Exact string equality, decided by comparing the character views.
pub fn str_is(s: &str, lit: &str) -> (r: bool)
    ensures
        r == (s@ == lit@),
{
    let a = String::from_str(s);
    let b = String::from_str(lit);
    a == b
}

/// Prefix test matching `spec_starts_with`.
pub fn str_starts_with(s: &str, p: &str) -> (r: bool)
    ensures
        r == spec_starts_with(s@, p@),
{
    let n = s.unicode_len();
    let m = p.unicode_len();
    if m > n {
        false
    } else {
        let sub = s.substring_char(0, m);
        str_is(sub, p)
    }
}

/// First occurrence of `p` in `s`, as a character index.
pub fn find_sub(s: &str, p: &str) -> (r: Option<usize>)
    ensures
        match r {
            Some(i) => spec_find(s@, p@) == Some(i as int),
            None => spec_find(s@, p@) is None,
        },
    decreases s@.len(),
{
    if str_starts_with(s, p) {
        Some(0)
    } else {
        let n = s.unicode_len();
        if n == 0 {
            None
        } else {
            let rest = s.substring_char(1, n);
            match find_sub(rest, p) {
                Some(i) => {
                    proof {
                        lemma_spec_find_bound(rest@, p@);
                    }
                    Some(i + 1)
                },
                None => None,
            }
        }
    }
}

/// Substring occurrence test matching `spec_contains`.
pub fn str_contains(s: &str, p: &str) -> (r: bool)
    ensures
        r == spec_contains(s@, p@),
{
    find_sub(s, p).is_some()
}

/// Element-wise view of a string list.
pub open spec fn strings_model(s: Seq<String>) -> Seq<Seq<char>> {
    s.map(|i: int, x: String| x@)
}

/// Split at every occurrence of `c`.  The result always has one piece
/// more than the string has separators; splitting the empty string
/// yields one empty piece.
pub open spec fn spec_split_char(s: Seq<char>, c: char) -> Seq<Seq<char>>
    decreases s.len(),
{
    if s.len() == 0 {
        seq![Seq::<char>::empty()]
    } else if s[0] == c {
        seq![Seq::<char>::empty()] + spec_split_char(s.drop_first(), c)
    } else {
        let r = spec_split_char(s.drop_first(), c);
        seq![seq![s[0]] + r[0]] + r.drop_first()
    }
}

/// Splitting yields at least one piece.
pub proof fn lemma_split_char_len(s: Seq<char>, c: char)
    ensures
        spec_split_char(s, c).len() >= 1,
    decreases s.len(),
{
    if s.len() > 0 {
        lemma_split_char_len(s.drop_first(), c);
    }
}

/// Split `s` at every occurrence of `c`.
pub fn split_char(s: &str, c: char) -> (r: Vec<String>)
    ensures
        strings_model(r@) == spec_split_char(s@, c),
        r@.len() >= 1,
    decreases s@.len(),
{
    let n = s.unicode_len();
    if n == 0 {
        let mut r: Vec<String> = Vec::new();
        r.push(String::new());
        proof {
            assert(strings_model(r@) =~= spec_split_char(s@, c));
        }
        r
    } else {
        let c0 = s.get_char(0);
        let rest = s.substring_char(1, n);
        if c0 == c {
            let mut r = split_char(rest, c);
            r.insert(0, String::new());
            proof {
                assert(strings_model(r@) =~= seq![Seq::<char>::empty()] + spec_split_char(
                    rest@,
                    c,
                ));
            }
            r
        } else {
            let mut r = split_char(rest, c);
            proof {
                lemma_split_char_len(rest@, c);
            }
            let first = r.remove(0);
            let head = s.substring_char(0, 1);
            let new_first = String::from_str(head).concat(first.as_str());
            r.insert(0, new_first);
            proof {
                let m = spec_split_char(rest@, c);
                assert(head@ =~= seq![s@[0]]);
                assert(new_first@ =~= seq![s@[0]] + m[0]);
                assert(strings_model(r@) =~= seq![seq![s@[0]] + m[0]] + m.drop_first());
            }
            r
        }
    }
}

/// The characters that separate columns in tabular tool output.
pub open spec fn spec_is_space(c: char) -> bool {
    c == ' ' || c == '\t' || c == '\r' || c == '\n'
}

/// The maximal whitespace-free runs of `s`, in order, without empties.
pub open spec fn spec_split_spaces(s: Seq<char>) -> Seq<Seq<char>>
    decreases s.len(),
{
    if s.len() == 0 {
        Seq::empty()
    } else if spec_is_space(s[0]) {
        spec_split_spaces(s.drop_first())
    } else if s.len() > 1 && !spec_is_space(s[1]) {
        let r = spec_split_spaces(s.drop_first());
        seq![seq![s[0]] + r[0]] + r.drop_first()
    } else {
        seq![seq![s[0]]] + spec_split_spaces(s.drop_first())
    }
}

fn is_space(c: char) -> (r: bool)
    ensures
        r == spec_is_space(c),
{
    c == ' ' || c == '\t' || c == '\r' || c == '\n'
}

/// Split `s` into its whitespace-separated columns.
pub fn split_spaces(s: &str) -> (r: Vec<String>)
    ensures
        strings_model(r@) == spec_split_spaces(s@),
    decreases s@.len(),
{
    let n = s.unicode_len();
    if n == 0 {
        let r: Vec<String> = Vec::new();
        proof {
            assert(strings_model(r@) =~= spec_split_spaces(s@));
        }
        r
    } else {
        let c0 = s.get_char(0);
        let rest = s.substring_char(1, n);
        if is_space(c0) {
            split_spaces(rest)
        } else if n > 1 && !is_space(s.get_char(1)) {
            let mut r = split_spaces(rest);
            proof {
                assert(rest@.len() > 0 && !spec_is_space(rest@[0]));
                assert(spec_split_spaces(rest@).len() >= 1);
            }
            let first = r.remove(0);
            let head = s.substring_char(0, 1);
            let new_first = String::from_str(head).concat(first.as_str());
            r.insert(0, new_first);
            proof {
                let m = spec_split_spaces(rest@);
                assert(head@ =~= seq![s@[0]]);
                assert(new_first@ =~= seq![s@[0]] + m[0]);
                assert(strings_model(r@) =~= seq![seq![s@[0]] + m[0]] + m.drop_first());
            }
            r
        } else {
            let mut r = split_spaces(rest);
            let head = s.substring_char(0, 1);
            r.insert(0, String::from_str(head));
            proof {
                assert(head@ =~= seq![s@[0]]);
                assert(strings_model(r@) =~= seq![seq![s@[0]]] + spec_split_spaces(rest@));
            }
            r
        }
    }
}

/// The columns from `from` on, joined with single spaces.
pub open spec fn spec_join_spaces(parts: Seq<Seq<char>>) -> Seq<char>
    decreases parts.len(),
{
    if parts.len() == 0 {
        Seq::empty()
    } else if parts.len() == 1 {
        parts[0]
    } else {
        parts[0] + seq![' '] + spec_join_spaces(parts.drop_first())
    }
}

/// Join the pieces from index `from` on with single spaces.
pub fn join_spaces(parts: &Vec<String>, from: usize) -> (r: String)
    requires
        from <= parts@.len(),
    ensures
        r@ == spec_join_spaces(strings_model(parts@).skip(from as int)),
    decreases parts@.len() - from,
{
    let ghost m = strings_model(parts@);
    if from == parts.len() {
        proof {
            assert(m.skip(from as int) =~= Seq::<Seq<char>>::empty());
        }
        String::new()
    } else if from + 1 == parts.len() {
        proof {
            assert(m.skip(from as int).len() == 1);
            assert(m.skip(from as int)[0] == m[from as int]);
        }
        parts[from].clone()
    } else {
        let rest = join_spaces(parts, from + 1);
        let mut r = parts[from].clone();
        r.append(" ");
        r.append(rest.as_str());
        proof {
            assert(m.skip(from as int).len() >= 2);
            assert(m.skip(from as int)[0] == m[from as int]);
            assert(m.skip(from as int).drop_first() =~= m.skip(from + 1));
            assert(" "@ =~= seq![' ']) by {
                reveal_strlit(" ");
            }
            assert(r@ =~= m[from as int] + seq![' '] + spec_join_spaces(m.skip(from + 1)));
            assert(r@ =~= spec_join_spaces(m.skip(from as int)));
        }
        r
    }
}

/// Character membership test.
pub fn contains_char(s: &str, c: char) -> (r: bool)
    ensures
        r == s@.contains(c),
{
    let n = s.unicode_len();
    let mut i: usize = 0;
    while i < n
        invariant
            n == s@.len(),
            0 <= i <= n,
            forall|j: int| 0 <= j < i ==> s@[j] != c,
        decreases n - i,
    {
        if s.get_char(i) == c {
            return true;
        }
        i += 1;
    }
    false
}

} // verus!
