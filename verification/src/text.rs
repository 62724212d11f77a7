use vstd::prelude::*;

verus! {

/// Index of the last occurrence of `ch` strictly before position `end`.
pub open spec fn spec_find_last_before(s: Seq<char>, ch: char, end: int) -> Option<int>
    decreases end,
{
    if end <= 0 {
        None
    } else if s[end - 1] == ch {
        Some(end - 1)
    } else {
        spec_find_last_before(s, ch, end - 1)
    }
}

/// `spec_find_last_before` returns the largest index below `end` holding
/// `ch`, and `None` exactly when no index below `end` holds it.
pub proof fn lemma_find_last_before(s: Seq<char>, ch: char, end: int)
    requires
        end <= s.len(),
    ensures
        match spec_find_last_before(s, ch, end) {
            Some(j) => 0 <= j < end && s[j] == ch && (forall|k: int| j < k < end ==> s[k] != ch),
            None => forall|k: int| 0 <= k < end ==> s[k] != ch,
        },
    decreases end,
{
    if end > 0 && s[end - 1] != ch {
        lemma_find_last_before(s, ch, end - 1);
    }
}

/// String equality by view.
pub fn eq_str(a: &str, b: &str) -> (r: bool)
    ensures
        r == (a@ == b@),
{
    let sa: String = a.to_owned();
    let sb: String = b.to_owned();
    sa == sb
}

/// Last occurrence of `ch` in `s` strictly before character position `end`.
pub fn find_last_before(s: &str, ch: char, end: usize) -> (r: Option<usize>)
    requires
        end <= s@.len(),
    ensures
        (match spec_find_last_before(s@, ch, end as int) {
            Some(j) => r == Some(j as usize),
            None => r is None,
        }),
{
    let mut i: usize = end;
    while i > 0
        invariant
            i <= end <= s@.len(),
            spec_find_last_before(s@, ch, end as int) == spec_find_last_before(s@, ch, i as int),
        decreases i,
    {
        if s.get_char(i - 1) == ch {
            return Some(i - 1);
        }
        i = i - 1;
    }
    None
}

} // verus!
