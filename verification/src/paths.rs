//! Path resolution for access-control checks.
//!
//! Paths are compared component-wise after resolving relative paths against
//! the working directory: a path is inside an allowed directory when the
//! directory's components are a prefix of the path's components.  Empty and
//! `.` components are dropped and `..` pops the component before it, so
//! `./x`, `x`, `x/` and `y/../x` all resolve alike and upward traversal
//! cannot smuggle a path back under an allowed prefix.

use vstd::prelude::*;
use crate::text::chars_eq;

verus! {

/// Split on `/` without dropping anything: always at least one component.
pub open spec fn split_on_slash(s: Seq<char>) -> Seq<Seq<char>>
    decreases s.len(),
{
    if s.len() == 0 {
        seq![Seq::empty()]
    } else if s[0] == '/' {
        seq![Seq::<char>::empty()] + split_on_slash(s.drop_first())
    } else {
        let rest = split_on_slash(s.drop_first());
        seq![seq![s[0]] + rest[0]] + rest.drop_first()
    }
}

/// Normalize a component sequence: empty and `.` components vanish, `..`
/// pops the nearest preceding component (or vanishes at the root).
pub open spec fn normalize_components(cs: Seq<Seq<char>>) -> Seq<Seq<char>>
    decreases cs.len(),
{
    if cs.len() == 0 {
        Seq::empty()
    } else {
        let rest = normalize_components(cs.drop_last());
        if cs.last().len() == 0 || cs.last() == seq!['.'] {
            rest
        } else if cs.last() == seq!['.', '.'] {
            if rest.len() > 0 {
                rest.drop_last()
            } else {
                rest
            }
        } else {
            rest.push(cs.last())
        }
    }
}

/// The normalized components of a path string.
pub open spec fn norm_components(s: Seq<char>) -> Seq<Seq<char>> {
    normalize_components(split_on_slash(s))
}

/// A path is absolute when it starts with `/`.
pub open spec fn is_absolute_path(s: Seq<char>) -> bool {
    s.len() > 0 && s[0] == '/'
}

/// The components of `p` resolved against the working directory `cwd`:
/// absolute paths stand alone, relative ones are appended to `cwd` before
/// normalizing, so `..` steps of `p` pop components of `cwd`.
pub open spec fn resolved_components(cwd: Seq<char>, p: Seq<char>) -> Seq<Seq<char>> {
    if is_absolute_path(p) {
        norm_components(p)
    } else {
        normalize_components(split_on_slash(cwd) + split_on_slash(p))
    }
}

/// Component sequence `a` is a prefix of `b`.
pub open spec fn comps_prefix(a: Seq<Seq<char>>, b: Seq<Seq<char>>) -> bool {
    a.len() <= b.len() && a == b.subrange(0, a.len() as int)
}

proof fn lemma_split_nonempty(s: Seq<char>)
    ensures
        split_on_slash(s).len() >= 1,
    decreases s.len(),
{
    if s.len() != 0 {
        lemma_split_nonempty(s.drop_first());
    }
}

proof fn lemma_split_push(t: Seq<char>, c: char)
    ensures
        c == '/' ==> split_on_slash(t.push(c)) == split_on_slash(t).push(Seq::<char>::empty()),
        c != '/' ==> split_on_slash(t.push(c)) == split_on_slash(t).drop_last().push(
            split_on_slash(t).last().push(c),
        ),
    decreases t.len(),
{
    lemma_split_nonempty(t);
    if t.len() == 0 {
        assert(t =~= Seq::<char>::empty());
        assert(t.push(c).drop_first() =~= t);
        if c == '/' {
            assert(split_on_slash(t.push(c)) =~~= split_on_slash(t).push(Seq::<char>::empty()));
        } else {
            assert(split_on_slash(t.push(c)) =~~= split_on_slash(t).drop_last().push(
                split_on_slash(t).last().push(c),
            ));
        }
    } else {
        lemma_split_push(t.drop_first(), c);
        lemma_split_nonempty(t.drop_first());
        assert(t.push(c).drop_first() =~= t.drop_first().push(c));
        assert(t.push(c)[0] == t[0]);
        if c == '/' {
            assert(split_on_slash(t.push(c)) =~~= split_on_slash(t).push(Seq::<char>::empty()));
        } else {
            assert(split_on_slash(t.push(c)) =~~= split_on_slash(t).drop_last().push(
                split_on_slash(t).last().push(c),
            ));
        }
    }
}

/// The views of a vector of character vectors.
pub open spec fn views_of(s: Seq<Vec<char>>) -> Seq<Seq<char>> {
    s.map_values(|v: Vec<char>| v@)
}

fn raw_components(s: &Vec<char>) -> (r: Vec<Vec<char>>)
    ensures
        views_of(r@) == split_on_slash(s@),
{
    let n = s.len();
    let mut comps: Vec<Vec<char>> = Vec::new();
    comps.push(Vec::new());
    proof {
        assert(s@.take(0) =~= Seq::<char>::empty());
        assert(views_of(comps@) =~~= split_on_slash(s@.take(0)));
    }
    let mut i: usize = 0;
    while i < n
        invariant
            n == s@.len(),
            0 <= i <= n,
            comps@.len() >= 1,
            views_of(comps@) == split_on_slash(s@.take(i as int)),
        decreases n - i,
    {
        let c = s[i];
        proof {
            lemma_split_push(s@.take(i as int), c);
            assert(s@.take(i + 1) =~= s@.take(i as int).push(s@[i as int]));
            lemma_split_nonempty(s@.take(i as int));
        }
        if c == '/' {
            comps.push(Vec::new());
            proof {
                assert(views_of(comps@) =~~= split_on_slash(s@.take(i + 1)));
            }
        } else {
            let mut cur = match comps.pop() {
                Some(v) => v,
                None => Vec::new(),  // unreachable: comps is never empty
            };
            cur.push(c);
            comps.push(cur);
            proof {
                assert(views_of(comps@) =~~= split_on_slash(s@.take(i + 1)));
            }
        }
        i = i + 1;
    }
    proof {
        assert(s@.take(n as int) =~= s@);
    }
    comps
}

fn normalize_exec(raw: &Vec<Vec<char>>) -> (r: Vec<Vec<char>>)
    ensures
        views_of(r@) == normalize_components(views_of(raw@)),
{
    let n = raw.len();
    let mut out: Vec<Vec<char>> = Vec::new();
    proof {
        assert(views_of(raw@).take(0) =~= Seq::<Seq<char>>::empty());
        assert(views_of(out@) =~~= normalize_components(views_of(raw@).take(0)));
    }
    let mut i: usize = 0;
    while i < n
        invariant
            n == raw@.len(),
            0 <= i <= n,
            views_of(out@) == normalize_components(views_of(raw@).take(i as int)),
        decreases n - i,
    {
        proof {
            assert(views_of(raw@).take(i + 1).drop_last() =~= views_of(raw@).take(i as int));
            assert(views_of(raw@).take(i + 1).last() == views_of(raw@)[i as int]);
        }
        let comp = &raw[i];
        let is_skip: bool = comp.len() == 0 || (comp.len() == 1 && comp[0] == '.');
        let is_up: bool = comp.len() == 2 && comp[0] == '.' && comp[1] == '.';
        proof {
            if comp@.len() == 0 {
            } else if comp@.len() == 1 {
                assert(comp@ == seq!['.'] <==> comp@[0] == '.') by {
                    if comp@[0] == '.' {
                        assert(comp@ =~= seq!['.']);
                    }
                }
                assert(comp@ != seq!['.', '.']);
            } else if comp@.len() == 2 {
                assert(comp@ != seq!['.']);
                assert(comp@ == seq!['.', '.'] <==> (comp@[0] == '.' && comp@[1] == '.')) by {
                    if comp@[0] == '.' && comp@[1] == '.' {
                        assert(comp@ =~= seq!['.', '.']);
                    }
                }
            } else {
                assert(comp@ != seq!['.'] && comp@ != seq!['.', '.']);
            }
            assert(is_skip == (comp@.len() == 0 || comp@ == seq!['.']));
            assert(is_up == (comp@ == seq!['.', '.']));
        }
        if is_skip {
            proof {
                assert(views_of(out@) =~~= normalize_components(views_of(raw@).take(i + 1)));
            }
        } else if is_up {
            if out.len() > 0 {
                let _ = out.pop();
            }
            proof {
                assert(views_of(out@) =~~= normalize_components(views_of(raw@).take(i + 1)));
            }
        } else {
            let copy = comp.clone();
            proof {
                assert(copy@ =~= comp@);
            }
            out.push(copy);
            proof {
                assert(views_of(out@) =~~= normalize_components(views_of(raw@).take(i + 1)));
            }
        }
        i = i + 1;
    }
    proof {
        assert(views_of(raw@).take(n as int) =~= views_of(raw@));
    }
    out
}

/// The normalized components of a path, as vectors.
pub fn path_components(s: &Vec<char>) -> (r: Vec<Vec<char>>)
    ensures
        views_of(r@) == norm_components(s@),
{
    let raw = raw_components(s);
    normalize_exec(&raw)
}

/// Whether `a`'s components are a prefix of `b`'s.
pub fn comps_is_prefix(a: &Vec<Vec<char>>, b: &Vec<Vec<char>>) -> (r: bool)
    ensures
        r == comps_prefix(views_of(a@), views_of(b@)),
{
    if a.len() > b.len() {
        return false;
    }
    let n = a.len();
    let mut i: usize = 0;
    while i < n
        invariant
            n == a@.len() <= b@.len(),
            0 <= i <= n,
            forall|j: int| 0 <= j < i ==> views_of(a@)[j] == views_of(b@)[j],
        decreases n - i,
    {
        if !chars_eq(&a[i], &b[i]) {
            assert(views_of(a@)[i as int] != views_of(b@).subrange(0, a@.len() as int)[i as int]);
            return false;
        }
        i = i + 1;
    }
    assert(views_of(a@) =~~= views_of(b@).subrange(0, a@.len() as int));
    true
}

/// The components of `path` resolved against `cwd`, as vectors.
pub fn resolved_path(path: &Vec<char>, cwd: &Vec<char>) -> (r: Vec<Vec<char>>)
    ensures
        views_of(r@) == resolved_components(cwd@, path@),
{
    if path.len() > 0 && path[0] == '/' {
        path_components(path)
    } else {
        let mut raw = raw_components(cwd);
        let mut rel = raw_components(path);
        raw.append(&mut rel);
        proof {
            assert(views_of(raw@) =~~= split_on_slash(cwd@) + split_on_slash(path@));
        }
        normalize_exec(&raw)
    }
}

} // verus!
