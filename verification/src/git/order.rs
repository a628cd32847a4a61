//! What holds of every listing of changed paths.
//!
//! Listing loses no path and makes none up; of two paths at most one is
//! listed before the other; and no path stands behind one that it is listed
//! before.

use vstd::prelude::*;

use crate::git::paths::{
    components, depth, inserted, ordered, parts_before, path_before, text_before,
};

verus! {

/// Of two texts at most one stands before the other.
pub proof fn lemma_text_before_one_way(a: Seq<char>, b: Seq<char>)
    ensures
        !(text_before(a, b) && text_before(b, a)),
    decreases a.len(),
{
    if a.len() > 0 && b.len() > 0 && a[0] == b[0] {
        lemma_text_before_one_way(a.drop_first(), b.drop_first());
    }
}

/// Of two paths at most one is listed before the other.
pub proof fn lemma_parts_before_one_way(
    a: Seq<Seq<char>>,
    b: Seq<Seq<char>>,
    a_depth: nat,
    b_depth: nat,
)
    ensures
        !(parts_before(a, b, a_depth, b_depth) && parts_before(b, a, b_depth, a_depth)),
    decreases a.len(),
{
    if a.len() > 0 && b.len() > 0 {
        if a[0] == b[0] {
            lemma_parts_before_one_way(a.drop_first(), b.drop_first(), a_depth, b_depth);
        } else {
            lemma_text_before_one_way(a[0], b[0]);
        }
    }
}

/// Putting a path into a list adds that path and changes nothing else.
pub proof fn lemma_inserted_keeps_paths(sorted: Seq<Seq<char>>, path: Seq<char>)
    ensures
        inserted(sorted, path).to_multiset() == sorted.to_multiset().insert(path),
        inserted(sorted, path).len() == sorted.len() + 1,
    decreases sorted.len(),
{
    broadcast use vstd::seq_lib::group_to_multiset_ensures;

    if sorted.len() > 0 && path_before(path, sorted.last()) {
        lemma_inserted_keeps_paths(sorted.drop_last(), path);
        assert(sorted =~= sorted.drop_last().push(sorted.last()));
        assert(inserted(sorted, path).to_multiset() =~= sorted.to_multiset().insert(path));
    }
}

/// The listing holds every path as often as it was given: ordering loses
/// nothing and makes nothing up.
pub proof fn lemma_ordered_keeps_paths(paths: Seq<Seq<char>>)
    ensures
        ordered(paths).to_multiset() == paths.to_multiset(),
        ordered(paths).len() == paths.len(),
    decreases paths.len(),
{
    broadcast use vstd::seq_lib::group_to_multiset_ensures;

    if paths.len() > 0 {
        lemma_ordered_keeps_paths(paths.drop_last());
        lemma_inserted_keeps_paths(ordered(paths.drop_last()), paths.last());
        assert(paths =~= paths.drop_last().push(paths.last()));
    } else {
        assert(ordered(paths) =~= paths);
    }
}

/// No path of the list stands directly behind one that it is listed before.
pub open spec fn neighbours_in_order(listed: Seq<Seq<char>>) -> bool {
    forall|i: int| 0 < i < listed.len() ==> !path_before(#[trigger] listed[i], listed[i - 1])
}

/// Putting a path into a list whose neighbours are in order leaves the
/// neighbours in order.
pub proof fn lemma_inserted_in_order(sorted: Seq<Seq<char>>, path: Seq<char>)
    requires
        neighbours_in_order(sorted),
    ensures
        neighbours_in_order(inserted(sorted, path)),
        inserted(sorted, path).len() == sorted.len() + 1,
        inserted(sorted, path).last() == path || (sorted.len() > 0 && inserted(sorted, path).last()
            == sorted.last() && path_before(path, sorted.last())),
    decreases sorted.len(),
{
    let result = inserted(sorted, path);
    if sorted.len() > 0 && path_before(path, sorted.last()) {
        let init = sorted.drop_last();
        assert forall|i: int| 0 < i < init.len() implies !path_before(
            #[trigger] init[i],
            init[i - 1],
        ) by {
            assert(init[i] == sorted[i]);
        }
        lemma_inserted_in_order(init, path);
        let body = inserted(init, path);
        assert forall|i: int| 0 < i < result.len() implies !path_before(
            #[trigger] result[i],
            result[i - 1],
        ) by {
            if i < body.len() {
                assert(result[i] == body[i]);
            } else {
                assert(result[i] == sorted.last());
                assert(result[i - 1] == body.last());
                if body.last() == path {
                    lemma_parts_before_one_way(
                        components(path),
                        components(sorted.last()),
                        depth(components(path)),
                        depth(components(sorted.last())),
                    );
                } else {
                    assert(body.last() == init.last());
                    assert(sorted[sorted.len() - 1] == sorted.last());
                    assert(init.last() == sorted[sorted.len() - 2]);
                }
            }
        }
    } else {
        assert forall|i: int| 0 < i < result.len() implies !path_before(
            #[trigger] result[i],
            result[i - 1],
        ) by {
            if i < sorted.len() {
                assert(result[i] == sorted[i]);
            }
        }
    }
}

/// In the listing no path stands directly behind one that it is listed before.
pub proof fn lemma_ordered_in_order(paths: Seq<Seq<char>>)
    ensures
        neighbours_in_order(ordered(paths)),
    decreases paths.len(),
{
    if paths.len() > 0 {
        lemma_ordered_in_order(paths.drop_last());
        lemma_inserted_in_order(ordered(paths.drop_last()), paths.last());
    }
}

/// No text stands before itself.
pub proof fn lemma_text_not_before_itself(a: Seq<char>)
    ensures
        !text_before(a, a),
    decreases a.len(),
{
    if a.len() > 0 {
        lemma_text_not_before_itself(a.drop_first());
    }
}

/// Of two different texts one stands before the other.
pub proof fn lemma_text_before_either_way(a: Seq<char>, b: Seq<char>)
    requires
        a != b,
    ensures
        text_before(a, b) || text_before(b, a),
    decreases a.len(),
{
    if a.len() > 0 && b.len() > 0 && a[0] == b[0] {
        if a.drop_first() == b.drop_first() {
            assert(a =~= seq![a[0]] + a.drop_first());
            assert(b =~= seq![b[0]] + b.drop_first());
        }
        lemma_text_before_either_way(a.drop_first(), b.drop_first());
    } else if a.len() == 0 && b.len() == 0 {
        assert(a =~= b);
    }
}

/// A text that stands before a second, which stands before a third, stands
/// before the third.
pub proof fn lemma_text_before_chain(a: Seq<char>, b: Seq<char>, c: Seq<char>)
    requires
        text_before(a, b),
        text_before(b, c),
    ensures
        text_before(a, c),
    decreases a.len(),
{
    if a.len() > 0 && a[0] == b[0] && b[0] == c[0] {
        lemma_text_before_chain(a.drop_first(), b.drop_first(), c.drop_first());
    }
}

/// Listing order is kept along a chain, for component lists that are what
/// is left of three paths after the same number of components: where the
/// second is not listed before the first and the third not before the
/// second, the third is not listed before the first.
proof fn lemma_parts_chain(
    a: Seq<Seq<char>>,
    b: Seq<Seq<char>>,
    c: Seq<Seq<char>>,
    a_depth: nat,
    b_depth: nat,
    c_depth: nat,
    taken: nat,
)
    requires
        a_depth + 1 == a.len() + taken,
        b_depth + 1 == b.len() + taken,
        c_depth + 1 == c.len() + taken,
        !parts_before(b, a, b_depth, a_depth),
        !parts_before(c, b, c_depth, b_depth),
    ensures
        !parts_before(c, a, c_depth, a_depth),
    decreases a.len(),
{
    if a.len() > 0 && b.len() > 0 && c.len() > 0 {
        if a[0] != b[0] {
            lemma_text_before_either_way(a[0], b[0]);
        }
        if b[0] != c[0] {
            lemma_text_before_either_way(b[0], c[0]);
        }
        if a[0] == b[0] && b[0] == c[0] {
            lemma_parts_chain(
                a.drop_first(),
                b.drop_first(),
                c.drop_first(),
                a_depth,
                b_depth,
                c_depth,
                taken + 1,
            );
        } else if a[0] != b[0] && b[0] != c[0] {
            lemma_text_before_chain(a[0], b[0], c[0]);
            lemma_text_not_before_itself(a[0]);
            lemma_text_before_one_way(a[0], c[0]);
        } else if a[0] == b[0] {
            lemma_text_before_one_way(a[0], c[0]);
        } else {
            lemma_text_before_one_way(a[0], c[0]);
        }
    }
}

/// A path that has a component.
pub open spec fn has_component(path: Seq<char>) -> bool {
    components(path).len() > 0
}

/// Among paths that have a component, listing order is kept along a chain.
pub proof fn lemma_path_chain(a: Seq<char>, b: Seq<char>, c: Seq<char>)
    requires
        has_component(a),
        has_component(b),
        has_component(c),
        !path_before(b, a),
        !path_before(c, b),
    ensures
        !path_before(c, a),
{
    lemma_parts_chain(
        components(a),
        components(b),
        components(c),
        depth(components(a)),
        depth(components(b)),
        depth(components(c)),
        0,
    );
}

/// No path of the list stands anywhere behind one that it is listed before.
pub open spec fn in_order(listed: Seq<Seq<char>>) -> bool {
    forall|i: int, j: int|
        0 <= i < j < listed.len() ==> !path_before(#[trigger] listed[j], #[trigger] listed[i])
}

/// Every path of the list has a component.
pub open spec fn all_have_components(listed: Seq<Seq<char>>) -> bool {
    forall|i: int| 0 <= i < listed.len() ==> has_component(#[trigger] listed[i])
}

/// Every path of a list with one more path put in is that path or a path
/// of the list.
pub proof fn lemma_inserted_holds(sorted: Seq<Seq<char>>, path: Seq<char>)
    ensures
        inserted(sorted, path).len() == sorted.len() + 1,
        forall|k: int|
            0 <= k < inserted(sorted, path).len() ==> #[trigger] inserted(sorted, path)[k] == path
                || sorted.contains(inserted(sorted, path)[k]),
    decreases sorted.len(),
{
    let result = inserted(sorted, path);
    if sorted.len() > 0 && path_before(path, sorted.last()) {
        let init = sorted.drop_last();
        lemma_inserted_holds(init, path);
        let body = inserted(init, path);
        assert forall|k: int| 0 <= k < result.len() implies #[trigger] result[k] == path
            || sorted.contains(result[k]) by {
            if k < body.len() {
                assert(result[k] == body[k]);
                if body[k] != path {
                    let i = choose|i: int| 0 <= i < init.len() && init[i] == body[k];
                    assert(sorted[i] == body[k]);
                }
            } else {
                assert(result[k] == sorted[sorted.len() - 1]);
            }
        }
    } else {
        assert forall|k: int| 0 <= k < result.len() implies #[trigger] result[k] == path
            || sorted.contains(result[k]) by {
            if k < sorted.len() {
                assert(result[k] == sorted[k]);
            }
        }
    }
}

/// Putting a path into a list that is in order leaves the list in order,
/// where every path has a component.
pub proof fn lemma_inserted_stays_in_order(sorted: Seq<Seq<char>>, path: Seq<char>)
    requires
        in_order(sorted),
        all_have_components(sorted),
        has_component(path),
    ensures
        in_order(inserted(sorted, path)),
        all_have_components(inserted(sorted, path)),
    decreases sorted.len(),
{
    let result = inserted(sorted, path);
    lemma_inserted_holds(sorted, path);
    assert forall|k: int| 0 <= k < result.len() implies has_component(#[trigger] result[k]) by {
        if result[k] != path {
            let i = choose|i: int| 0 <= i < sorted.len() && sorted[i] == result[k];
            assert(has_component(sorted[i]));
        }
    }
    if sorted.len() > 0 && path_before(path, sorted.last()) {
        let init = sorted.drop_last();
        let last = sorted.last();
        assert forall|i: int, j: int| 0 <= i < j < init.len() implies !path_before(
            #[trigger] init[j],
            #[trigger] init[i],
        ) by {
            assert(init[j] == sorted[j] && init[i] == sorted[i]);
        }
        assert forall|i: int| 0 <= i < init.len() implies has_component(#[trigger] init[i]) by {
            assert(init[i] == sorted[i]);
        }
        lemma_inserted_stays_in_order(init, path);
        lemma_inserted_holds(init, path);
        let body = inserted(init, path);
        assert forall|i: int, j: int| 0 <= i < j < result.len() implies !path_before(
            #[trigger] result[j],
            #[trigger] result[i],
        ) by {
            if j < body.len() {
                assert(result[j] == body[j] && result[i] == body[i]);
            } else {
                assert(result[j] == last);
                assert(result[i] == body[i]);
                if body[i] == path {
                    lemma_parts_before_one_way(
                        components(path),
                        components(last),
                        depth(components(path)),
                        depth(components(last)),
                    );
                } else {
                    let k = choose|k: int| 0 <= k < init.len() && init[k] == body[i];
                    assert(sorted[k] == body[i]);
                    assert(sorted[sorted.len() - 1] == last);
                }
            }
        }
    } else {
        assert forall|i: int, j: int| 0 <= i < j < result.len() implies !path_before(
            #[trigger] result[j],
            #[trigger] result[i],
        ) by {
            if j < sorted.len() {
                assert(result[j] == sorted[j] && result[i] == sorted[i]);
            } else {
                assert(result[j] == path);
                assert(result[i] == sorted[i]);
                let last = sorted[sorted.len() - 1];
                assert(last == sorted.last());
                if i < sorted.len() - 1 {
                    assert(!path_before(last, sorted[i]));
                    lemma_path_chain(sorted[i], last, path);
                }
            }
        }
    }
}

/// The listing of paths that each have a component is in order: no path
/// stands anywhere behind one that it is listed before.
pub proof fn lemma_ordered_is_in_order(paths: Seq<Seq<char>>)
    requires
        all_have_components(paths),
    ensures
        in_order(ordered(paths)),
        all_have_components(ordered(paths)),
    decreases paths.len(),
{
    if paths.len() > 0 {
        let init = paths.drop_last();
        assert forall|i: int| 0 <= i < init.len() implies has_component(#[trigger] init[i]) by {
            assert(init[i] == paths[i]);
        }
        lemma_ordered_is_in_order(init);
        assert(has_component(paths[paths.len() - 1]));
        lemma_inserted_stays_in_order(ordered(init), paths.last());
    }
}

} // verus!
