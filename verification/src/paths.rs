//! The order of mount paths, the names of their subvolumes, and when two paths are the same.

use vstd::prelude::*;
use vstd::relations::{sorted_by, total_ordering};
use vstd::seq_lib::{group_to_multiset_ensures, lemma_sorted_unique};

use crate::text::{chars_of, is_text_le, same_text, split};
use crate::text::{
    prefix_comes_first, split_on, splitting_goes_piece_by_piece, splitting_is_undone_by_joining,
    text_le, text_order_is_total, text_order_is_transitive, whole_texts_are_one_piece,
};

verus! {

/// How deep a path lies in the tree: the number of pieces between its slashes.
pub open spec fn depth(path: Seq<char>) -> nat {
    split_on(path, '/').len()
}

/// Shallow paths come before deep ones, and paths of one depth come in the order of texts.
pub open spec fn tree_le(a: Seq<char>, b: Seq<char>) -> bool {
    depth(a) < depth(b) || (depth(a) == depth(b) && text_le(a, b))
}

/// The order of paths: from the root of the tree to its leaves, or the other way round.
pub open spec fn path_le(inverse_tree: bool) -> spec_fn(Seq<char>, Seq<char>) -> bool {
    |a: Seq<char>, b: Seq<char>|
        if inverse_tree {
            tree_le(b, a)
        } else {
            tree_le(a, b)
        }
}

/// The paths in their order.
pub open spec fn sorted_paths(paths: Seq<Seq<char>>, inverse_tree: bool) -> Seq<Seq<char>> {
    paths.sort_by(path_le(inverse_tree))
}

/// The order of paths is a total order, in both directions.
pub proof fn path_order_is_total(inverse_tree: bool)
    ensures
        total_ordering(path_le(inverse_tree)),
{
    let le = path_le(inverse_tree);
    assert forall|x: Seq<char>, y: Seq<char>|
        (#[trigger] le(x, y) || #[trigger] le(y, x)) && (le(x, y) && le(y, x) ==> x == y) by {
        text_order_is_total(x, y);
    }
    assert forall|x: Seq<char>, y: Seq<char>, z: Seq<char>| #[trigger]
        le(x, y) && #[trigger] le(y, z) implies le(x, z) by {
        if text_le(x, y) && text_le(y, z) {
            text_order_is_transitive(x, y, z);
        }
        if text_le(z, y) && text_le(y, x) {
            text_order_is_transitive(z, y, x);
        }
    }
    assert forall|x: Seq<char>| #[trigger] le(x, x) by {
        text_order_is_total(x, x);
    }
}

/// A sorted list holds the same paths as before, in order, and is the only list that does.
pub proof fn sorted_paths_are_ordered(paths: Seq<Seq<char>>, inverse_tree: bool)
    ensures
        sorted_by(sorted_paths(paths, inverse_tree), path_le(inverse_tree)),
        sorted_paths(paths, inverse_tree).to_multiset() == paths.to_multiset(),
        sorted_paths(paths, inverse_tree).len() == paths.len(),
        forall|other: Seq<Seq<char>>|
            sorted_by(other, path_le(inverse_tree)) && #[trigger] other.to_multiset()
                == paths.to_multiset() ==> other == sorted_paths(paths, inverse_tree),
{
    broadcast use group_to_multiset_ensures;

    let le = path_le(inverse_tree);
    path_order_is_total(inverse_tree);
    paths.lemma_sort_by_ensures(le);
    assert forall|other: Seq<Seq<char>>|
        sorted_by(other, le) && #[trigger] other.to_multiset() == paths.to_multiset() implies other
        == sorted_paths(paths, inverse_tree) by {
        lemma_sorted_unique(other, sorted_paths(paths, inverse_tree), le);
    }
    assert(sorted_paths(paths, inverse_tree).to_multiset().len() == paths.to_multiset().len());
}

/// Cutting a path short never makes it deeper.
pub proof fn prefix_is_no_deeper(a: Seq<char>, b: Seq<char>)
    requires
        a.is_prefix_of(b),
    ensures
        depth(a) <= depth(b),
    decreases b.len(),
{
    if a.len() == b.len() {
        assert(a =~= b);
    } else {
        assert(a =~= b.drop_last().subrange(0, a.len() as int)) by {
            assert(a =~= b.subrange(0, a.len() as int));
        }
        prefix_is_no_deeper(a, b.drop_last());
        splitting_is_undone_by_joining(b.drop_last(), '/');
    }
}

/// A directory stands before everything below it in the order from the root to the leaves, and
/// behind it in the order from the leaves to the root: where one path begins another, the shorter
/// one is mounted first and unmounted last.
pub proof fn parents_come_before_children(
    paths: Seq<Seq<char>>,
    parent: int,
    child: int,
    inverse_tree: bool,
)
    requires
        0 <= parent < paths.len(),
        0 <= child < paths.len(),
        sorted_paths(paths, inverse_tree)[parent].is_prefix_of(
            sorted_paths(paths, inverse_tree)[child],
        ),
        sorted_paths(paths, inverse_tree)[parent] != sorted_paths(paths, inverse_tree)[child],
    ensures
        if inverse_tree {
            child < parent
        } else {
            parent < child
        },
{
    sorted_paths_are_ordered(paths, inverse_tree);
    path_order_is_total(inverse_tree);
    let sorted = sorted_paths(paths, inverse_tree);
    let le = path_le(inverse_tree);
    let a = sorted[parent];
    let b = sorted[child];
    prefix_comes_first(a, b);
    prefix_is_no_deeper(a, b);
    assert(tree_le(a, b));
    if inverse_tree {
        assert(le(b, a));
        if parent < child {
            assert(le(a, b));
        }
    } else {
        assert(le(a, b));
        if child < parent {
            assert(le(b, a));
        }
    }
}

/// Sorting a sorted list changes nothing.
pub proof fn sorting_twice_is_sorting_once(paths: Seq<Seq<char>>, inverse_tree: bool)
    ensures
        sorted_paths(sorted_paths(paths, inverse_tree), inverse_tree) == sorted_paths(
            paths,
            inverse_tree,
        ),
{
    sorted_paths_are_ordered(paths, inverse_tree);
    sorted_paths_are_ordered(sorted_paths(paths, inverse_tree), inverse_tree);
}

/// Unmounting takes the paths in exactly the reverse of the order in which they are mounted.
pub proof fn inverse_order_is_reversed_order(paths: Seq<Seq<char>>)
    ensures
        sorted_paths(paths, true) == sorted_paths(paths, false).reverse(),
{
    sorted_paths_are_ordered(paths, true);
    sorted_paths_are_ordered(paths, false);
    let forward = sorted_paths(paths, false);
    let le = path_le(true);
    assert forall|i: int, j: int| 0 <= i < j < forward.len() implies #[trigger] le(
        forward.reverse()[i],
        forward.reverse()[j],
    ) by {
        let down = path_le(false);
        assert(down(forward[forward.len() - 1 - j], forward[forward.len() - 1 - i]));
    }
    forward.lemma_reverse_to_multiset();
}

/// The number of slashes in a path.
pub open spec fn slashes(path: Seq<char>) -> nat {
    path.filter(|c: char| c == '/').len()
}

/// A path is one deeper than it has slashes.
proof fn depth_counts_slashes(path: Seq<char>)
    ensures
        depth(path) == slashes(path) + 1,
    decreases path.len(),
{
    reveal(Seq::filter);
    if path.len() > 0 {
        depth_counts_slashes(path.drop_last());
        splitting_is_undone_by_joining(path.drop_last(), '/');
    }
}

/// In the order from the root to the leaves a path with fewer slashes comes first, and of two paths
/// with as many slashes the one whose text comes first; in the order from the leaves to the root it
/// is the other way round. No path is lost, and none is added.
pub proof fn sorted_paths_go_by_slashes(
    paths: Seq<Seq<char>>,
    inverse_tree: bool,
    i: int,
    k: int,
)
    requires
        0 <= i < k < paths.len(),
    ensures
        ({
            let sorted = sorted_paths(paths, inverse_tree);
            let (first, last) = if inverse_tree {
                (sorted[k], sorted[i])
            } else {
                (sorted[i], sorted[k])
            };
            &&& slashes(first) < slashes(last) || (slashes(first) == slashes(last) && text_le(
                first,
                last,
            ))
            &&& sorted.to_multiset() == paths.to_multiset()
        }),
{
    sorted_paths_are_ordered(paths, inverse_tree);
    let sorted = sorted_paths(paths, inverse_tree);
    depth_counts_slashes(sorted[i]);
    depth_counts_slashes(sorted[k]);
    let le = path_le(inverse_tree);
    assert(le(sorted[i], sorted[k]));
}

/// How deep a path lies in the tree.
fn path_depth(path: &str) -> (r: usize)
    ensures
        r == depth(path@),
{
    split(path, '/').len()
}

/// Whether `a` stands before `b` in the order from the root to the leaves, or equals it.
fn is_tree_le(a: &str, b: &str) -> (r: bool)
    ensures
        r == tree_le(a@, b@),
{
    let x: usize = path_depth(a);
    let y: usize = path_depth(b);
    x < y || (x == y && is_text_le(a, b))
}

/// Exchanges the element at `at` with the one before it.
fn swap_with_previous(paths: &mut [String], at: usize)
    requires
        0 < at < old(paths)@.len(),
    ensures
        final(paths)@.len() == old(paths)@.len(),
        final(paths).deep_view() == old(paths).deep_view().update(
            at as int,
            old(paths).deep_view()[at - 1],
        ).update(at - 1, old(paths).deep_view()[at as int]),
{
    let (left, right) = paths.split_at_mut(at);
    match (left.last_mut(), right.first_mut()) {
        (Some(a), Some(b)) => {
            std::mem::swap(a, b);
        },
        _ => {},
    }
}

/// Sorts paths by their depth in the tree and, within one depth, by their text: from the root to
/// the leaves, or from the leaves to the root where `inverse_tree` is set.
pub fn sort_paths(paths: &mut [String], inverse_tree: bool)
    ensures
        final(paths).deep_view() == sorted_paths(old(paths).deep_view(), inverse_tree),
        sorted_by(final(paths).deep_view(), path_le(inverse_tree)),
        final(paths).deep_view().to_multiset() == old(paths).deep_view().to_multiset(),
{
    let ghost given = paths.deep_view();
    let ghost le = path_le(inverse_tree);
    proof {
        path_order_is_total(inverse_tree);
    }
    let n: usize = paths.len();
    let mut i: usize = 0;
    while i < n
        invariant
            i <= n == paths@.len(),
            total_ordering(le),
            le == path_le(inverse_tree),
            paths.deep_view().to_multiset() == given.to_multiset(),
            forall|a: int, b: int|
                0 <= a < b < i ==> #[trigger] le(paths.deep_view()[a], paths.deep_view()[b]),
        decreases n - i,
    {
        let mut j: usize = i;
        let mut sinking: bool = true;
        while sinking && j > 0
            invariant
                j <= i < n == paths@.len(),
                total_ordering(le),
                le == path_le(inverse_tree),
                paths.deep_view().to_multiset() == given.to_multiset(),
                forall|a: int, b: int|
                    0 <= a < b <= i && a != j && b != j ==> #[trigger] le(
                        paths.deep_view()[a],
                        paths.deep_view()[b],
                    ),
                forall|b: int|
                    j < b <= i ==> #[trigger] le(
                        paths.deep_view()[j as int],
                        paths.deep_view()[b],
                    ),
                !sinking ==> (j == 0 || le(paths.deep_view()[j - 1], paths.deep_view()[j as int])),
            decreases j + if sinking { 1int } else { 0int },
        {
            let in_order: bool = if inverse_tree {
                is_tree_le(paths[j].as_str(), paths[j - 1].as_str())
            } else {
                is_tree_le(paths[j - 1].as_str(), paths[j].as_str())
            };
            if in_order {
                assert(le(paths.deep_view()[j - 1], paths.deep_view()[j as int]));
                sinking = false;
            } else {
                let ghost before = paths.deep_view();
                swap_with_previous(paths, j);
                proof {
                    broadcast use {
                        group_to_multiset_ensures,
                        vstd::multiset::group_multiset_axioms,
                    };

                    let after = paths.deep_view();
                    assert(after.to_multiset() =~= before.to_multiset());
                    assert(!le(before[j - 1], before[j as int]));
                    assert(le(before[j as int], before[j - 1]));
                    assert forall|b: int| j - 1 < b <= i implies #[trigger] le(
                        after[j - 1],
                        after[b],
                    ) by {
                        if b != j {
                            assert(le(before[j as int], before[b]));
                        }
                    }
                    assert forall|a: int, b: int|
                        0 <= a < b <= i && a != j - 1 && b != j - 1 implies #[trigger] le(
                        after[a],
                        after[b],
                    ) by {
                        let x = if a == j {
                            j - 1
                        } else {
                            a
                        };
                        let y = if b == j {
                            j - 1
                        } else {
                            b
                        };
                        assert(le(before[x], before[y]));
                    }
                }
                j = j - 1;
            }
        }
        proof {
            let done = paths.deep_view();
            assert forall|a: int, b: int| 0 <= a < b < i + 1 implies #[trigger] le(
                done[a],
                done[b],
            ) by {
                if b == j && a < j - 1 {
                    assert(le(done[a], done[j - 1]));
                    assert(le(done[j - 1], done[j as int]));
                }
            }
        }
        i = i + 1;
    }
    proof {
        sorted_paths_are_ordered(given, inverse_tree);
        assert(sorted_by(paths.deep_view(), le));
    }
}

/// The name of the btrfs subvolume for a mount path: the first slash becomes `@`, every further
/// one `-`.
pub open spec fn subvolume_name(mount_path: Seq<char>) -> Seq<char> {
    Seq::new(
        mount_path.len(),
        |i: int|
            if mount_path[i] != '/' {
                mount_path[i]
            } else if mount_path.take(i).contains('/') {
                '-'
            } else {
                '@'
            },
    )
}

/// The name of a subvolume holds no slash, so the subvolume is a direct child of the directory it
/// is created in, and the name of an absolute path's subvolume begins with `@`.
pub proof fn subvolume_names_hold_no_slash(mount_path: Seq<char>)
    ensures
        !subvolume_name(mount_path).contains('/'),
        subvolume_name(mount_path).len() == mount_path.len(),
        mount_path.len() > 0 && mount_path[0] == '/' ==> subvolume_name(mount_path)[0] == '@',
{
    assert(!mount_path.take(0).contains('/'));
}

/// The name of a subvolume is the mount path with `@` for its first slash and `-` for the others.
pub proof fn subvolume_names_follow_their_mount_paths(before: Seq<char>, after: Seq<char>)
    requires
        !before.contains('/'),
    ensures
        subvolume_name(before) == before,
        subvolume_name(before.push('/') + after) == before.push('@') + after.map_values(
            |c: char|
                if c == '/' {
                    '-'
                } else {
                    c
                },
        ),
{
    let path = before.push('/') + after;
    assert forall|k: int| 0 <= k < before.len() implies before[k] != '/' && path[k] == before[k] by {
        assert(before.contains(before[k]));
    }
    assert(subvolume_name(before) =~= before);
    assert(path.take(before.len() as int) =~= before);
    assert forall|k: int| before.len() < k < path.len() implies path.take(k).contains('/') by {
        assert(path.take(k)[before.len() as int] == '/');
    }
    assert(subvolume_name(path) =~= before.push('@') + after.map_values(
        |c: char|
            if c == '/' {
                '-'
            } else {
                c
            },
    ));
}

/// The name of the btrfs subvolume for a mount path.
pub fn make_btrfs_subvolume_string(subvolume_mount_path: &str) -> (r: String)
    ensures
        r@ == subvolume_name(subvolume_mount_path@),
{
    let chars = chars_of(subvolume_mount_path);
    let mut r = String::new();
    let mut seen: bool = false;
    let mut i: usize = 0;
    while i < chars.len()
        invariant
            i <= chars@.len(),
            chars@ == subvolume_mount_path@,
            seen == subvolume_mount_path@.take(i as int).contains('/'),
            r@ == subvolume_name(subvolume_mount_path@).take(i as int),
        decreases chars@.len() - i,
    {
        let ghost before = subvolume_mount_path@.take(i as int);
        let ghost after = subvolume_mount_path@.take(i + 1);
        assert(after =~= before.push(chars@[i as int]));
        proof {
            if seen {
                let k = choose|k: int| 0 <= k < before.len() && before[k] == '/';
                assert(after[k] == '/');
            } else {
                assert forall|k: int| 0 <= k < before.len() implies after[k] != '/' by {
                    assert(before[k] == after[k]);
                }
                assert(after[i as int] == chars@[i as int]);
            }
        }
        if chars[i] != '/' {
            r.push(chars[i]);
        } else if seen {
            r.push('-');
        } else {
            r.push('@');
            seen = true;
        }
        assert(r@ =~= subvolume_name(subvolume_mount_path@).take(i + 1));
        i = i + 1;
    }
    assert(subvolume_name(subvolume_mount_path@).take(i as int) =~= subvolume_name(
        subvolume_mount_path@,
    ));
    r
}

/// Whether a piece of a path names something: empty pieces and `.` do not.
pub open spec fn names_something(piece: Seq<char>) -> bool {
    piece.len() > 0 && piece != seq!['.']
}

/// What a path begins with: the root, the current directory, or neither.
pub open spec fn path_start(path: Seq<char>) -> Seq<Seq<char>> {
    if path.len() > 0 && path[0] == '/' {
        seq![seq!['/']]
    } else if split_on(path, '/')[0] == seq!['.'] {
        seq![seq!['.']]
    } else {
        seq![]
    }
}

/// The components of a path. Repeated slashes, a slash at the end, and every `.` but one at the
/// start make no difference.
pub open spec fn path_components(path: Seq<char>) -> Seq<Seq<char>> {
    path_start(path) + split_on(path, '/').filter(|piece: Seq<char>| names_something(piece))
}

/// Whether a piece of a path is a single dot.
fn is_dot(piece: &str) -> (r: bool)
    ensures
        r == (piece@ == seq!['.']),
{
    let chars = chars_of(piece);
    let r = chars.len() == 1 && chars[0] == '.';
    assert(r == (piece@ =~= seq!['.']));
    r
}

/// The components of a path.
fn components(path: &str) -> (r: Vec<String>)
    ensures
        r.deep_view() == path_components(path@),
{
    let chars = chars_of(path);
    let pieces = split(path, '/');
    proof {
        splitting_is_undone_by_joining(path@, '/');
    }
    let ghost all = pieces.deep_view();
    let ghost keep = |piece: Seq<char>| names_something(piece);
    let mut r: Vec<String> = Vec::new();
    if chars.len() > 0 && chars[0] == '/' {
        let mut root = String::new();
        root.push('/');
        assert(root@ =~= seq!['/']);
        r.push(root);
    } else if is_dot(pieces[0].as_str()) {
        r.push(pieces[0].clone());
    }
    assert(r.deep_view() =~= path_start(path@));
    let mut i: usize = 0;
    assert(all.take(0).filter(keep) =~= Seq::empty()) by {
        reveal(Seq::filter);
    }
    assert(r.deep_view() =~= path_start(path@) + all.take(0).filter(keep));
    while i < pieces.len()
        invariant
            i <= pieces@.len(),
            all == pieces.deep_view(),
            keep == (|piece: Seq<char>| names_something(piece)),
            r.deep_view() == path_start(path@) + all.take(i as int).filter(keep),
        decreases pieces@.len() - i,
    {
        assert(all.take(i + 1).drop_last() =~= all.take(i as int));
        reveal(Seq::filter);
        let ghost before = r.deep_view();
        if !pieces[i].as_str().is_empty() && !is_dot(pieces[i].as_str()) {
            r.push(pieces[i].clone());
            assert(r.deep_view() =~= before.push(all[i as int]));
            assert(r.deep_view() =~= path_start(path@) + all.take(i + 1).filter(keep));
        }
        i = i + 1;
    }
    assert(all.take(i as int) =~= all);
    r
}

/// Whether two paths have the same components.
pub fn same_path(a: &str, b: &str) -> (r: bool)
    ensures
        r == (path_components(a@) == path_components(b@)),
{
    let x = components(a);
    let y = components(b);
    if x.len() != y.len() {
        assert(x.deep_view().len() != y.deep_view().len());
        return false;
    }
    let mut i: usize = 0;
    while i < x.len()
        invariant
            i <= x@.len() == y@.len(),
            x.deep_view() == path_components(a@),
            y.deep_view() == path_components(b@),
            forall|k: int| 0 <= k < i ==> x.deep_view()[k] == y.deep_view()[k],
        decreases x@.len() - i,
    {
        if !same_text(x[i].as_str(), y[i].as_str()) {
            assert(x.deep_view()[i as int] != y.deep_view()[i as int]);
            return false;
        }
        i = i + 1;
    }
    assert(x.deep_view() =~= y.deep_view());
    true
}

/// Whether a text is an absolute path of parts with a slash before each of them, none of them empty
/// or a dot.
pub open spec fn is_plain_path(path: Seq<char>) -> bool {
    &&& path.len() > 1
    &&& path[0] == '/'
    &&& forall|i: int|
        1 <= i < split_on(path, '/').len() ==> names_something(#[trigger] split_on(path, '/')[i])
}

/// Two plain absolute paths have the same components only where they are the same text.
pub proof fn plain_paths_are_told_apart(a: Seq<char>, b: Seq<char>)
    requires
        is_plain_path(a),
        is_plain_path(b),
        path_components(a) == path_components(b),
    ensures
        a == b,
{
    components_of_plain_paths(a);
    components_of_plain_paths(b);
    splitting_is_undone_by_joining(a, '/');
    splitting_is_undone_by_joining(b, '/');
    let x = split_on(a, '/');
    let y = split_on(b, '/');
    assert(path_components(a).skip(1) =~= x.skip(1));
    assert(path_components(b).skip(1) =~= y.skip(1));
    assert(x =~= seq![x[0]] + x.skip(1));
    assert(y =~= seq![y[0]] + y.skip(1));
    assert(x[0] =~= y[0]);
    assert(x =~= y);
}

/// The components of a plain absolute path are the root and its parts.
proof fn components_of_plain_paths(path: Seq<char>)
    requires
        is_plain_path(path),
    ensures
        split_on(path, '/')[0].len() == 0,
        path_components(path) == seq![seq!['/']] + split_on(path, '/').skip(1),
{
    let pieces = split_on(path, '/');
    let keep = |piece: Seq<char>| names_something(piece);
    let root = Seq::<char>::empty();
    assert(path =~= root.push('/') + path.skip(1));
    splitting_goes_piece_by_piece(root, path.skip(1), '/');
    whole_texts_are_one_piece(root, '/');
    splitting_is_undone_by_joining(path.skip(1), '/');
    assert(pieces =~= seq![root] + split_on(path.skip(1), '/'));
    assert(pieces =~= seq![root] + pieces.skip(1));
    filters_keep_all(pieces.skip(1), keep);
    first_is_dropped(pieces, keep);
    assert(pieces.filter(keep) =~= pieces.skip(1));
}

/// A filter that everything passes changes nothing.
proof fn filters_keep_all(pieces: Seq<Seq<char>>, keep: spec_fn(Seq<char>) -> bool)
    requires
        forall|i: int| 0 <= i < pieces.len() ==> keep(#[trigger] pieces[i]),
    ensures
        pieces.filter(keep) == pieces,
    decreases pieces.len(),
{
    reveal(Seq::filter);
    if pieces.len() > 0 {
        filters_keep_all(pieces.drop_last(), keep);
        assert(pieces.drop_last().push(pieces.last()) =~= pieces);
    }
}

/// A filter drops a first element that does not pass it.
proof fn first_is_dropped(pieces: Seq<Seq<char>>, keep: spec_fn(Seq<char>) -> bool)
    requires
        pieces.len() > 0,
        !keep(pieces[0]),
    ensures
        pieces.filter(keep) == pieces.skip(1).filter(keep),
    decreases pieces.len(),
{
    reveal(Seq::filter);
    if pieces.len() == 1 {
        assert(pieces.drop_last() =~= Seq::empty());
        assert(pieces.skip(1) =~= Seq::empty());
    } else {
        first_is_dropped(pieces.drop_last(), keep);
        assert(pieces.drop_last().skip(1) =~= pieces.skip(1).drop_last());
    }
}

/// A path that goes on behind a slash goes on by the part behind it. A slash at the end, a second slash
/// and a dot between two slashes make no difference, and every other part does, two dots among them.
pub proof fn paths_go_on_by_their_parts(path: Seq<char>, after: Seq<char>)
    requires
        path.len() > 0,
    ensures
        path_components(path.push('/')) == path_components(path),
        path_components(path.push('/').push('/') + after) == path_components(path.push('/') + after),
        path_components(path.push('/').push('.').push('/') + after) == path_components(
            path.push('/') + after,
        ),
        !after.contains('/') && after.len() > 0 && after != seq!['.'] ==> path_components(
            path.push('/') + after,
        ) == path_components(path).push(after),
{
    let keep = |piece: Seq<char>| names_something(piece);
    let none = Seq::<char>::empty();
    let dot = seq!['.'];
    let head = split_on(path, '/');
    let tail = split_on(after, '/');
    single_pieces_are_kept_or_dropped(none);
    single_pieces_are_kept_or_dropped(dot);
    single_pieces_are_kept_or_dropped(after);
    splitting_is_undone_by_joining(path, '/');
    whole_texts_are_one_piece(none, '/');
    whole_texts_are_one_piece(dot, '/');
    splitting_goes_piece_by_piece(path, none, '/');
    splitting_goes_piece_by_piece(path, after, '/');
    splitting_goes_piece_by_piece(path.push('/'), after, '/');
    splitting_goes_piece_by_piece(path, dot, '/');
    splitting_goes_piece_by_piece(path.push('/').push('.'), after, '/');
    assert(path.push('/') + none =~= path.push('/'));
    assert(path.push('/') + dot =~= path.push('/').push('.'));
    Seq::filter_distributes_over_add(head, seq![none], keep);
    Seq::filter_distributes_over_add(head, seq![dot], keep);
    Seq::filter_distributes_over_add(head, tail, keep);
    Seq::filter_distributes_over_add(head + seq![none], tail, keep);
    Seq::filter_distributes_over_add(head + seq![dot], tail, keep);
    if !after.contains('/') {
        whole_texts_are_one_piece(after, '/');
    }
    assert(path_components(path.push('/')) =~= path_components(path));
    assert(path_components(path.push('/').push('/') + after) =~= path_components(
        path.push('/') + after,
    ));
    assert(path_components(path.push('/').push('.').push('/') + after) =~= path_components(
        path.push('/') + after,
    ));
    if !after.contains('/') && after.len() > 0 && after != dot {
        assert(path_components(path.push('/') + after) =~= path_components(path).push(after));
    }
}

/// A single part is its own component, a dot too where it is all there is, and the root is one of its own.
pub proof fn paths_begin_with_their_first_part(part: Seq<char>)
    requires
        !part.contains('/'),
        part.len() > 0,
    ensures
        path_components(part) == seq![part],
        path_components(seq!['/']) == seq![seq!['/']],
        part != seq!['.'] ==> path_components(seq!['/'] + part) == seq![seq!['/'], part],
{
    let keep = |piece: Seq<char>| names_something(piece);
    let none = Seq::<char>::empty();
    single_pieces_are_kept_or_dropped(none);
    single_pieces_are_kept_or_dropped(part);
    whole_texts_are_one_piece(part, '/');
    whole_texts_are_one_piece(none, '/');
    splitting_goes_piece_by_piece(none, part, '/');
    splitting_goes_piece_by_piece(none, none, '/');
    assert(part.contains(part[0]));
    assert(none.push('/') + part =~= seq!['/'] + part);
    assert(none.push('/') + none =~= seq!['/']);
    Seq::filter_distributes_over_add(seq![none], seq![part], keep);
    Seq::filter_distributes_over_add(seq![none], seq![none], keep);
    assert(path_components(part) =~= seq![part]);
    assert(path_components(seq!['/']) =~= seq![seq!['/']]);
    if part != seq!['.'] {
        assert(path_components(seq!['/'] + part) =~= seq![seq!['/'], part]);
    }
}

/// A single piece is kept exactly where it names something.
proof fn single_pieces_are_kept_or_dropped(piece: Seq<char>)
    ensures
        names_something(piece) ==> seq![piece].filter(|piece: Seq<char>| names_something(piece))
            == seq![piece],
        !names_something(piece) ==> seq![piece].filter(|piece: Seq<char>| names_something(piece))
            == Seq::<Seq<char>>::empty(),
{
    let keep = |piece: Seq<char>| names_something(piece);
    if names_something(piece) {
        filters_keep_all(seq![piece], keep);
    } else {
        first_is_dropped(seq![piece], keep);
        assert(seq![piece].skip(1) =~= Seq::empty());
        filters_keep_all(Seq::empty(), keep);
    }
}

} // verus!
