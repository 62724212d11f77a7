use vstd::prelude::*;

use crate::text::{find_last_before, lemma_find_last_before, spec_find_last_before};

verus! {

/// Position where the final path component ends: trailing separators are
/// ignored.
pub open spec fn spec_trim_trailing(p: Seq<char>, end: int) -> int
    decreases end,
{
    if end > 0 && p[end - 1] == '/' {
        spec_trim_trailing(p, end - 1)
    } else {
        end
    }
}

/// The final component of `p`: what stands after the last separator, with
/// trailing separators ignored.
pub open spec fn spec_component(p: Seq<char>) -> Seq<char> {
    let end = spec_trim_trailing(p, p.len() as int);
    let start = match spec_find_last_before(p, '/', end) {
        Some(j) => j + 1,
        None => 0,
    };
    p.subrange(start, end)
}

/// The stem of the final component of `p`: the component with the part from
/// its last dot on removed, unless that dot is its first character. An empty
/// component and the two relative components `.` and `..` have no stem.
pub open spec fn spec_basename(p: Seq<char>) -> Option<Seq<char>> {
    let comp = spec_component(p);
    if comp.len() == 0 {
        None
    } else if comp.len() == 1 && comp[0] == '.' {
        None
    } else if comp.len() == 2 && comp[0] == '.' && comp[1] == '.' {
        None
    } else {
        match spec_find_last_before(comp, '.', comp.len() as int) {
            Some(k) => if k > 0 {
                Some(comp.subrange(0, k))
            } else {
                Some(comp)
            },
            None => Some(comp),
        }
    }
}

/// The stem of the final path component, as the shell `basename` command
/// with the extension removed.
pub fn basename(path: &str) -> (r: Option<String>)
    ensures
        (match spec_basename(path@) {
            Some(s) => r matches Some(rs) && rs@ == s,
            None => r is None,
        }),
{
    basename_impl(path)
}

pub fn basename_impl(path: &str) -> (r: Option<String>)
    ensures
        (match spec_basename(path@) {
            Some(s) => r matches Some(rs) && rs@ == s,
            None => r is None,
        }),
{
    let ghost p = path@;
    let len = path.unicode_len();

    // drop trailing separators
    let mut end = len;
    while end > 0 && path.get_char(end - 1) == '/'
        invariant
            p == path@,
            end <= len,
            len == p.len(),
            spec_trim_trailing(p, len as int) == spec_trim_trailing(p, end as int),
        decreases end,
    {
        assert(spec_trim_trailing(p, end as int) == spec_trim_trailing(p, end as int - 1));
        end = end - 1;
    }
    assert(spec_trim_trailing(p, end as int) == end as int);
    proof {
        lemma_find_last_before(p, '/', end as int);
    }

    // start of the final component
    let start = match find_last_before(path, '/', end) {
        Some(j) => j + 1,
        None => 0,
    };
    let ghost comp = spec_component(p);
    assert(comp == p.subrange(start as int, end as int));

    if start == end {
        return None;
    }
    if end - start == 1 && path.get_char(start) == '.' {
        return None;
    }
    if end - start == 2 && path.get_char(start) == '.' && path.get_char(start + 1) == '.' {
        assert(comp.len() == 2 && comp[0] == '.' && comp[1] == '.');
        return None;
    }
    assert(!(comp.len() == 1 && comp[0] == '.'));
    assert(!(comp.len() == 2 && comp[0] == '.' && comp[1] == '.'));

    // strip the extension: everything from the last dot on, unless the dot
    // leads the component
    proof {
        lemma_find_last_before(p, '.', end as int);
        lemma_find_last_before(comp, '.', comp.len() as int);
    }
    let dot = find_last_before(path, '.', end);
    let cut: usize = match dot {
        Some(k) => {
            if k > start {
                proof {
                    let kc = k - start;
                    assert(comp[kc] == '.');
                    if let Some(j2) = spec_find_last_before(comp, '.', comp.len() as int) {
                        assert(comp[j2] == '.');
                        assert(p[start as int + j2] == '.');
                        assert(j2 == kc);
                    }
                }
                assert(spec_find_last_before(comp, '.', comp.len() as int) == Some(
                    k - start as int,
                ));
                k
            } else {
                proof {
                    if let Some(j2) = spec_find_last_before(comp, '.', comp.len() as int) {
                        assert(comp[j2] == '.');
                        assert(p[start as int + j2] == '.');
                        assert(j2 == 0);
                    }
                }
                end
            }
        },
        None => {
            proof {
                if let Some(j2) = spec_find_last_before(comp, '.', comp.len() as int) {
                    assert(comp[j2] == '.');
                    assert(p[start as int + j2] == '.');
                }
            }
            end
        },
    };
    let stem = path.substring_char(start, cut);
    assert(stem@ =~= comp.subrange(0, cut - start as int));
    Some(stem.to_owned())
}

} // verus!
