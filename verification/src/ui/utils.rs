use vstd::prelude::*;

verus! {

/// The part of `s` before its first `'|'`: `s` itself when it holds none.
pub open spec fn before_bar(s: Seq<char>) -> Seq<char> {
    s.take(bar_index(s))
}

/// Index of the first `'|'` in `s`, or `s.len()` when there is none.
pub open spec fn bar_index(s: Seq<char>) -> int
    decreases s.len(),
{
    if s.len() == 0 {
        0
    } else if s[0] == '|' {
        0
    } else {
        1 + bar_index(s.drop_first())
    }
}

/// What `extract_prompt` gives for `s`.
///
/// An input that does not start with `'|'` has the empty prompt and is its
/// own content. An input `|prompt|content` (the prompt holding no `'|'`) is
/// split there; an input that starts with `'|'` and has no second `'|'` has
/// no prompt at all.
pub open spec fn spec_extract_prompt(s: Seq<char>) -> Option<(Seq<char>, Seq<char>)> {
    if s.len() > 0 && s[0] == '|' {
        let rest = s.drop_first();
        let j = bar_index(rest);
        if j < rest.len() {
            Some((rest.take(j), rest.skip(j + 1)))
        } else {
            None
        }
    } else {
        Some((Seq::empty(), s))
    }
}

proof fn lemma_bar_index(s: Seq<char>)
    ensures
        0 <= bar_index(s) <= s.len(),
        forall|k: int| 0 <= k < bar_index(s) ==> s[k] != '|',
        bar_index(s) < s.len() ==> s[bar_index(s)] == '|',
    decreases s.len(),
{
    if s.len() > 0 && s[0] != '|' {
        lemma_bar_index(s.drop_first());
        assert forall|k: int| 0 <= k < bar_index(s) implies s[k] != '|' by {
            if k > 0 {
                assert(s[k] == s.drop_first()[k - 1]);
            }
        }
    }
}

/// Splits `|prompt|content` into its prompt and content.
///
/// Input without a leading `'|'` is all content, with an empty prompt; a
/// leading `'|'` without a closing one gives `None`.
pub fn extract_prompt(s: &str) -> (r: Option<(String, String)>)
    ensures
        match (r, spec_extract_prompt(s@)) {
            (Some((p, c)), Some((sp, sc))) => p@ == sp && c@ == sc,
            (None, None) => true,
            _ => false,
        },
{
    let n = s.unicode_len();
    if n > 0 && s.get_char(0) == '|' {
        let ghost rest = s@.drop_first();
        proof {
            lemma_bar_index(rest);
        }
        let mut j: usize = 1;
        while j < n
            invariant
                1 <= j <= n,
                n == s@.len(),
                s@[0] == '|',
                rest == s@.drop_first(),
                forall|k: int| 1 <= k < j ==> s@[k] != '|',
                0 <= bar_index(rest) <= rest.len(),
                forall|k: int| 0 <= k < bar_index(rest) ==> rest[k] != '|',
                bar_index(rest) < rest.len() ==> rest[bar_index(rest)] == '|',
            decreases n - j,
        {
            if s.get_char(j) == '|' {
                proof {
                    let b = bar_index(rest);
                    assert(rest[j - 1] == s@[j as int]);
                    if b < j - 1 {
                        assert(rest[b] == s@[b + 1]);
                    }
                    assert(b == j - 1);
                }
                let prompt = s.substring_char(1, j);
                let content = s.substring_char(j + 1, n);
                assert(prompt@ =~= rest.take(j - 1));
                assert(content@ =~= rest.skip(j as int));
                let po = prompt.to_owned();
                let co = content.to_owned();
                return Some((po, co));
            }
            j = j + 1;
        }
        proof {
            let b = bar_index(rest);
            if b < rest.len() {
                assert(rest[b] == s@[b + 1]);
            }
        }
        None
    } else {
        Some((String::new(), s.to_owned()))
    }
}

/// Laws of prompt extraction: a split prompt puts the input back together,
/// and a prompt never holds a `'|'`.
pub proof fn lemma_extract_prompt_roundtrip(s: Seq<char>)
    ensures
        spec_extract_prompt(s) matches Some((p, c)) ==> {
            &&& !p.contains('|')
            &&& if s.len() > 0 && s[0] == '|' {
                s == seq!['|'] + p + seq!['|'] + c
            } else {
                p.len() == 0 && c == s
            }
        },
{
    if s.len() > 0 && s[0] == '|' {
        let rest = s.drop_first();
        lemma_bar_index(rest);
        let j = bar_index(rest);
        if j < rest.len() {
            assert(s =~= seq!['|'] + rest.take(j) + seq!['|'] + rest.skip(j + 1));
            assert forall|k: int| 0 <= k < rest.take(j).len() implies rest.take(j)[k] != '|' by {}
        }
    }
}

} // verus!
