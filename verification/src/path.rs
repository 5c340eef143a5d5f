//! The file stem of a Unix path, as `Path::file_stem` takes it: the command
//! word of a request is read that way.

use vstd::prelude::*;

verus! {

/// The characters after the last '/' of `p` (all of `p` when it has none).
pub open spec fn last_segment(p: Seq<char>) -> Seq<char>
    decreases p.len(),
{
    if p.len() == 0 || p.last() == '/' {
        Seq::empty()
    } else {
        last_segment(p.drop_last()).push(p.last())
    }
}

/// The last normal component of a path: empty components and `.` are skipped
/// from the end; a final `..`, or no component at all, gives `None`.
pub open spec fn file_name(p: Seq<char>) -> Option<Seq<char>>
    decreases p.len(),
{
    if p.len() == 0 {
        None
    } else if p.last() == '/' {
        file_name(p.drop_last())
    } else if last_segment(p) == seq!['.'] {
        file_name(p.drop_last())
    } else if last_segment(p) == seq!['.', '.'] {
        None
    } else {
        Some(last_segment(p))
    }
}

/// Index of the last '.' in `s`, or -1.
pub open spec fn last_dot(s: Seq<char>) -> int
    decreases s.len(),
{
    if s.len() == 0 {
        -1
    } else if s.last() == '.' {
        s.len() - 1
    } else {
        last_dot(s.drop_last())
    }
}

/// A file name without its extension: the part before the last '.', unless
/// that '.' is the first character.
pub open spec fn stem_of(name: Seq<char>) -> Seq<char> {
    if last_dot(name) > 0 {
        name.take(last_dot(name))
    } else {
        name
    }
}

pub open spec fn file_stem(p: Seq<char>) -> Option<Seq<char>> {
    match file_name(p) {
        Some(n) => Some(stem_of(n)),
        None => None,
    }
}

proof fn lemma_last_dot_range(s: Seq<char>)
    ensures
        -1 <= last_dot(s) < s.len(),
        last_dot(s) >= 0 ==> s[last_dot(s)] == '.',
        forall|k: int| last_dot(s) < k < s.len() ==> s[k] != '.',
    decreases s.len(),
{
    if s.len() > 0 && s.last() != '.' {
        let t = s.drop_last();
        lemma_last_dot_range(t);
        assert forall|k: int| last_dot(s) < k < s.len() implies s[k] != '.' by {
            if k < s.len() - 1 {
                assert(t[k] == s[k]);
            }
        }
    }
}

/// The file stem of the path `p` (see `file_stem`).
pub fn path_file_stem(p: &Vec<char>) -> (r: Option<Vec<char>>)
    ensures
        match file_stem(p@) {
            Some(s) => r matches Some(v) && v@ == s,
            None => r is None,
        },
{
    let mut end: usize = p.len();
    let mut name: Vec<char> = Vec::new();
    let mut found = false;
    assert(p@.take(end as int) =~= p@);
    while end > 0
        invariant_except_break
            !found,
            end <= p@.len(),
            file_name(p@) == file_name(p@.take(end as int)),
        invariant
            end <= p@.len(),
        ensures
            found ==> file_name(p@) == Some(name@),
            !found ==> file_name(p@) is None,
        decreases end,
    {
        let ghost q = p@.take(end as int);
        assert(q.last() == p@[end - 1]);
        if p[end - 1] == '/' {
            assert(q.drop_last() =~= p@.take(end - 1));
            end = end - 1;
        } else {
            let mut start: usize = end;
            while start > 0 && p[start - 1] != '/'
                invariant
                    start <= end <= p@.len(),
                    q == p@.take(end as int),
                    last_segment(q) == last_segment(p@.take(start as int)) + p@.subrange(
                        start as int,
                        end as int,
                    ),
                decreases start,
            {
                let ghost t = p@.take(start as int);
                assert(t.drop_last() =~= p@.take(start - 1));
                assert(p@.subrange(start - 1, end as int) =~= seq![p@[start - 1]] + p@.subrange(
                    start as int,
                    end as int,
                ));
                start = start - 1;
                assert(last_segment(t) == last_segment(p@.take(start as int)).push(t.last()));
            }
            assert(last_segment(p@.take(start as int)) =~= Seq::<char>::empty());
            let ghost seg = p@.subrange(start as int, end as int);
            assert(last_segment(q) =~= seg);
            if end - start == 1 && p[start] == '.' {
                assert(seg =~= seq!['.']);
                assert(q.drop_last() =~= p@.take(end - 1));
                end = end - 1;
            } else if end - start == 2 && p[start] == '.' && p[start + 1] == '.' {
                assert(seg =~= seq!['.', '.']);
                found = false;
                break;
            } else {
                proof {
                    if seg =~= seq!['.'] {
                        assert(seg[0] == p@[start as int]);
                    }
                    if seg =~= seq!['.', '.'] {
                        assert(seg[0] == p@[start as int] && seg[1] == p@[start + 1]);
                    }
                }
                name = Vec::new();
                let mut k: usize = start;
                while k < end
                    invariant
                        start <= k <= end <= p@.len(),
                        name@ == p@.subrange(start as int, k as int),
                    decreases end - k,
                {
                    name.push(p[k]);
                    k = k + 1;
                    assert(name@ =~= p@.subrange(start as int, k as int));
                }
                found = true;
                break;
            }
        }
    }
    if !found {
        return None;
    }
    let mut dot: usize = name.len();
    assert(name@.take(dot as int) =~= name@);
    while dot > 0 && name[dot - 1] != '.'
        invariant
            dot <= name@.len(),
            last_dot(name@) == last_dot(name@.take(dot as int)),
        decreases dot,
    {
        assert(name@.take(dot as int).drop_last() =~= name@.take(dot - 1));
        dot = dot - 1;
    }
    proof {
        if dot == 0 {
            assert(name@.take(0) =~= Seq::<char>::empty());
        } else {
            assert(last_dot(name@.take(dot as int)) == dot - 1);
        }
    }
    if dot > 1 {
        let mut stem: Vec<char> = Vec::new();
        let mut k: usize = 0;
        while k < dot - 1
            invariant
                1 < dot <= name@.len(),
                k <= dot - 1,
                stem@ == name@.take(k as int),
            decreases dot - 1 - k,
        {
            stem.push(name[k]);
            k = k + 1;
            assert(stem@ =~= name@.take(k as int));
        }
        Some(stem)
    } else {
        Some(name)
    }
}

/// A plain name (no '/' and no '.') is its own file stem.
pub(crate) proof fn lemma_plain_name_stem(s: Seq<char>)
    requires
        s.len() > 0,
        forall|k: int| 0 <= k < s.len() ==> s[k] != '/' && s[k] != '.',
    ensures
        file_stem(s) == Some(s),
    decreases s.len(),
{
    lemma_plain_segment(s);
    lemma_plain_no_dot(s);
    if last_segment(s) == seq!['.'] {
        assert(s[0] == seq!['.'][0]);
    }
    if last_segment(s) == seq!['.', '.'] {
        assert(s[0] == seq!['.', '.'][0]);
    }
}

proof fn lemma_plain_segment(s: Seq<char>)
    requires
        forall|k: int| 0 <= k < s.len() ==> s[k] != '/',
    ensures
        last_segment(s) == s,
    decreases s.len(),
{
    if s.len() > 0 {
        lemma_plain_segment(s.drop_last());
        assert(s.drop_last().push(s.last()) =~= s);
    }
}

proof fn lemma_plain_no_dot(s: Seq<char>)
    requires
        forall|k: int| 0 <= k < s.len() ==> s[k] != '.',
    ensures
        last_dot(s) == -1,
    decreases s.len(),
{
    if s.len() > 0 {
        lemma_plain_no_dot(s.drop_last());
    }
}

} // verus!
