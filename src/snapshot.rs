use vstd::prelude::*;

use crate::child::relative_path;
use crate::options::path_views;

verus! {

/// `root` ends where a path component of `mount_point` ends: `root` is empty
/// or ends with `/`, or `mount_point` goes on with `/` right after it.
pub open spec fn component_boundary(mount_point: Seq<char>, root: Seq<char>) -> bool {
    root.len() == 0 || root.last() == '/' || (root.len() < mount_point.len()
        && mount_point[root.len() as int] == '/')
}

/// `mount_point` lies strictly below `root`, by whole path components: it
/// starts with `root` at a component boundary (so `/system_ext` is not below
/// `/system`), and what follows holds a character other than `/` (so it is
/// neither `root` itself nor `root` spelled with a trailing `/`).
pub open spec fn nested_under(mount_point: Seq<char>, root: Seq<char>) -> bool {
    root.is_prefix_of(mount_point) && component_boundary(mount_point, root) && exists|i: int|
        root.len() <= i < mount_point.len() && mount_point[i] != '/'
}

/// `a` comes no later than `b` in lexicographic order of code points, the
/// order of `String`.
pub open spec fn text_le(a: Seq<char>, b: Seq<char>) -> bool
    decreases a.len(),
{
    if a.len() == 0 {
        true
    } else if b.len() == 0 {
        false
    } else if a[0] != b[0] {
        (a[0] as u32) < (b[0] as u32)
    } else {
        text_le(a.drop_first(), b.drop_first())
    }
}

/// Relies on slice::sort: the same items, ascending in `String`'s order, which
/// compares UTF-8 bytes and so orders strings by code points.
#[verifier::external_body]
fn sort_paths(v: &mut Vec<String>)
    ensures
        final(v)@.to_multiset() == old(v)@.to_multiset(),
        forall|i: int, j: int|
            0 <= i < j < final(v)@.len() ==> text_le(#[trigger] final(v)@[i]@, #[trigger] final(v)@[j]@),
{
    v.sort();
}

/// Whether `mount_point` lies strictly below `root`.
pub fn is_nested(mount_point: &str, root: &str) -> (r: bool)
    ensures
        r == nested_under(mount_point@, root@),
{
    match relative_path(mount_point, root) {
        None => false,
        Some(rel) => {
            let n = rel.as_str().unicode_len();
            let rn = root.unicode_len();
            let boundary = rn == 0 || root.get_char(rn - 1) == '/' || (n > 0 && rel.as_str().get_char(
                0,
            ) == '/');
            proof {
                if n > 0 {
                    assert(rel@[0] == mount_point@[root@.len() as int]);
                }
            }
            if !boundary {
                return false;
            }
            proof {
                if rn > 0 && root@[rn - 1] == '/' {
                    assert(root@.last() == '/');
                }
                assert(component_boundary(mount_point@, root@));
            }
            let mut i: usize = 0;
            while i < n
                invariant
                    n == rel@.len(),
                    root@.is_prefix_of(mount_point@),
                    component_boundary(mount_point@, root@),
                    rel@ == mount_point@.subrange(root@.len() as int, mount_point@.len() as int),
                    i <= n,
                    forall|j: int| 0 <= j < i ==> rel@[j] == '/',
                decreases n - i,
            {
                if rel.as_str().get_char(i) != '/' {
                    proof {
                        assert(mount_point@[root@.len() + i] == rel@[i as int]);
                    }
                    return true;
                }
                i = i + 1;
            }
            proof {
                assert forall|k: int| root@.len() <= k < mount_point@.len() implies mount_point@[k]
                    == '/' by {
                    assert(rel@[k - root@.len()] == mount_point@[k]);
                }
            }
            false
        },
    }
}

/// Whether some path of `v` reads as `p`.
fn contains_path(v: &Vec<String>, p: &String) -> (r: bool)
    ensures
        r <==> path_views(v@).contains(p@),
{
    let mut j: usize = 0;
    while j < v.len()
        invariant
            j <= v@.len(),
            forall|i: int| 0 <= i < j ==> #[trigger] v@[i]@ != p@,
        decreases v@.len() - j,
    {
        if v[j] == *p {
            proof {
                assert(path_views(v@)[j as int] == p@);
            }
            return true;
        }
        j = j + 1;
    }
    proof {
        if path_views(v@).contains(p@) {
            let i = choose|i: int| 0 <= i < path_views(v@).len() && path_views(v@)[i] == p@;
            assert(v@[i]@ == p@);
        }
    }
    false
}

proof fn lemma_push_contains(s: Seq<Seq<char>>, a: Seq<char>, x: Seq<char>)
    ensures
        s.push(a).contains(x) <==> (s.contains(x) || x == a),
{
    if s.contains(x) {
        let i = choose|i: int| 0 <= i < s.len() && s[i] == x;
        assert(s.push(a)[i] == x);
    }
    if x == a {
        assert(s.push(a)[s.len() as int] == x);
    }
    if s.push(a).contains(x) {
        let i = choose|i: int| 0 <= i < s.len() + 1 && s.push(a)[i] == x;
        if i < s.len() {
            assert(s[i] == x);
        }
    }
}

/// The paths of `mount_points` that lie strictly below `root`, in their order.
fn nested_mounts(mount_points: &Vec<String>, root: &str) -> (r: Vec<String>)
    ensures
        forall|x: Seq<char>|
            #![trigger path_views(r@).contains(x)]
            #![trigger path_views(mount_points@).contains(x)]
            path_views(r@).contains(x) <==> (path_views(mount_points@).contains(x)
                && nested_under(x, root@)),
{
    let mut kept: Vec<String> = Vec::new();
    let mut k: usize = 0;
    while k < mount_points.len()
        invariant
            k <= mount_points@.len(),
            forall|x: Seq<char>|
                #![trigger path_views(kept@).contains(x)]
                #![trigger path_views(mount_points@.subrange(0, k as int)).contains(x)]
                path_views(kept@).contains(x) <==> (path_views(
                    mount_points@.subrange(0, k as int),
                ).contains(x) && nested_under(x, root@)),
        decreases mount_points@.len() - k,
    {
        let ghost before = kept@;
        let ghost cur = mount_points@[k as int]@;
        let nested = is_nested(mount_points[k].as_str(), root);
        if nested {
            kept.push(mount_points[k].clone());
        }
        proof {
            let pre = path_views(mount_points@.subrange(0, k as int));
            let post = path_views(mount_points@.subrange(0, k + 1));
            assert(post =~= pre.push(cur));
            assert(nested == nested_under(cur, root@));
            if nested {
                assert(path_views(kept@) =~= path_views(before).push(cur));
            } else {
                assert(path_views(kept@) =~= path_views(before));
            }
            assert forall|x: Seq<char>|
                path_views(kept@).contains(x) <==> (post.contains(x) && nested_under(x, root@)) by {
                lemma_push_contains(pre, cur, x);
                lemma_push_contains(path_views(before), cur, x);
                assert(path_views(before).contains(x) <==> (pre.contains(x) && nested_under(x, root@)));
            }
        }
        k = k + 1;
    }
    proof {
        assert(mount_points@.subrange(0, k as int) =~= mount_points@);
    }
    kept
}

/// The paths of an ascending list, each once, still ascending.
fn dedup_sorted(sorted: &Vec<String>) -> (r: Vec<String>)
    requires
        forall|i: int, j: int|
            0 <= i < j < sorted@.len() ==> text_le(#[trigger] sorted@[i]@, #[trigger] sorted@[j]@),
    ensures
        forall|x: Seq<char>| path_views(r@).contains(x) <==> path_views(sorted@).contains(x),
        forall|i: int, j: int| 0 <= i < j < r@.len() ==> #[trigger] r@[i]@ != #[trigger] r@[j]@,
        forall|i: int, j: int|
            0 <= i < j < r@.len() ==> text_le(#[trigger] r@[i]@, #[trigger] r@[j]@),
{
    let mut out: Vec<String> = Vec::new();
    let mut k: usize = 0;
    while k < sorted.len()
        invariant
            k <= sorted@.len(),
            forall|i: int, j: int|
                0 <= i < j < sorted@.len() ==> text_le(#[trigger] sorted@[i]@, #[trigger] sorted@[j]@),
            forall|x: Seq<char>|
                path_views(out@).contains(x) <==> path_views(sorted@.subrange(0, k as int)).contains(x),
            forall|i: int, j: int| 0 <= i < j < out@.len() ==> #[trigger] out@[i]@ != #[trigger] out@[j]@,
            forall|i: int, j: int|
                0 <= i < j < out@.len() ==> text_le(#[trigger] out@[i]@, #[trigger] out@[j]@),
        decreases sorted@.len() - k,
    {
        let seen = contains_path(&out, &sorted[k]);
        let ghost before = out@;
        let ghost cur = sorted@[k as int]@;
        let ghost pre = path_views(sorted@.subrange(0, k as int));
        proof {
            assert(path_views(sorted@.subrange(0, k + 1)) =~= pre.push(cur));
        }
        if !seen {
            out.push(sorted[k].clone());
            proof {
                assert(path_views(out@) =~= path_views(before).push(cur));
                assert forall|x: Seq<char>|
                    path_views(out@).contains(x) <==> pre.push(cur).contains(x) by {
                    lemma_push_contains(path_views(before), cur, x);
                    lemma_push_contains(pre, cur, x);
                }
                assert forall|i: int, j2: int|
                    0 <= i < j2 < out@.len() implies text_le(
                    #[trigger] out@[i]@,
                    #[trigger] out@[j2]@,
                ) by {
                    if j2 == before.len() {
                        assert(path_views(before)[i] == before[i]@);
                        assert(path_views(before).contains(before[i]@));
                        assert(pre.contains(before[i]@));
                        let m = choose|m: int| 0 <= m < pre.len() && pre[m] == before[i]@;
                        assert(text_le(sorted@[m]@, sorted@[k as int]@));
                    } else {
                        assert(text_le(before[i]@, before[j2]@));
                    }
                }
                assert forall|i: int, j2: int|
                    0 <= i < j2 < out@.len() implies #[trigger] out@[i]@ != #[trigger] out@[j2]@ by {
                    if j2 == before.len() {
                        assert(path_views(before)[i] == before[i]@);
                    } else {
                        assert(before[i]@ != before[j2]@);
                    }
                }
            }
        } else {
            proof {
                assert forall|x: Seq<char>|
                    path_views(out@).contains(x) <==> pre.push(cur).contains(x) by {
                    lemma_push_contains(pre, cur, x);
                }
            }
        }
        k = k + 1;
    }
    proof {
        assert(sorted@.subrange(0, k as int) =~= sorted@);
    }
    out
}

/// The mount points strictly below `root`, taken from a mount table's list:
/// each once, in ascending order.
pub fn child_mounts(mount_points: &Vec<String>, root: &str) -> (r: Vec<String>)
    ensures
        forall|x: Seq<char>|
            #![trigger path_views(r@).contains(x)]
            #![trigger path_views(mount_points@).contains(x)]
            path_views(r@).contains(x) <==> (path_views(mount_points@).contains(x)
                && nested_under(x, root@)),
        forall|i: int, j: int|
            0 <= i < j < r@.len() ==> #[trigger] r@[i]@ != #[trigger] r@[j]@,
        forall|i: int, j: int|
            0 <= i < j < r@.len() ==> text_le(#[trigger] r@[i]@, #[trigger] r@[j]@),
{
    let mut kept = nested_mounts(mount_points, root);
    let ghost unsorted = kept@;
    sort_paths(&mut kept);
    proof {
        broadcast use vstd::seq_lib::group_to_multiset_ensures;

        assert forall|x: Seq<char>|
            path_views(kept@).contains(x) <==> path_views(unsorted).contains(x) by {
            if path_views(kept@).contains(x) {
                let m = choose|m: int| 0 <= m < path_views(kept@).len() && path_views(kept@)[m] == x;
                assert(kept@.contains(kept@[m]));
                assert(kept@.to_multiset().count(kept@[m]) > 0);
                assert(unsorted.contains(kept@[m]));
                let u = choose|u: int| 0 <= u < unsorted.len() && unsorted[u] == kept@[m];
                assert(path_views(unsorted)[u] == x);
            }
            if path_views(unsorted).contains(x) {
                let u = choose|u: int|
                    0 <= u < path_views(unsorted).len() && path_views(unsorted)[u] == x;
                assert(unsorted.contains(unsorted[u]));
                assert(unsorted.to_multiset().count(unsorted[u]) > 0);
                assert(kept@.contains(unsorted[u]));
                let m = choose|m: int| 0 <= m < kept@.len() && kept@[m] == unsorted[u];
                assert(path_views(kept@)[m] == x);
            }
        }
    }
    dedup_sorted(&kept)
}

} // verus!
