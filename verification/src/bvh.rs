use vstd::prelude::*;

verus! {

/// How a bounding volume hierarchy chooses where to split a node: in the
/// middle of the item count, in the middle of the centres' range, or by the
/// surface area heuristic.
#[derive(Debug, Clone, Copy, PartialEq, Eq, Structural)]
pub enum SplitMethod {
    Equal,
    Middle,
    Sah,
}

/// The shape of a bounding volume hierarchy: leaves hold the items, inner
/// nodes have exactly two children.
#[derive(Debug)]
pub enum BvhTree<T> {
    Leaf(Vec<T>),
    Node(Box<BvhTree<T>>, Box<BvhTree<T>>),
}

impl<T> BvhTree<T> {
    /// The items of the leaves, from the leftmost leaf to the rightmost.
    pub open spec fn items(&self) -> Seq<T>
        decreases self,
    {
        match self {
            BvhTree::Leaf(v) => v@,
            BvhTree::Node(l, r) => l.items() + r.items(),
        }
    }

    /// Every leaf holds at most `max_leaf_size` items, and every inner node
    /// holds more than that, split into two halves that are not empty.
    pub open spec fn well_shaped(&self, max_leaf_size: nat) -> bool
        decreases self,
    {
        match self {
            BvhTree::Leaf(v) => v@.len() <= max_leaf_size,
            BvhTree::Node(l, r) => {
                &&& l.items().len() > 0
                &&& r.items().len() > 0
                &&& l.items().len() + r.items().len() > max_leaf_size
                &&& l.well_shaped(max_leaf_size)
                &&& r.well_shaped(max_leaf_size)
            },
        }
    }
    /// The tree is what building over `input` gives when each node is cut
    /// where `split` says: `input` itself as a leaf when it holds at most
    /// `max_leaf_size` items; otherwise a node whose halves are built over
    /// the part before and the part from the cut of what `split` returned
    /// for `input`.
    pub open spec fn built_from<S: Fn(Vec<T>) -> (Vec<T>, usize)>(
        &self,
        input: Seq<T>,
        split: S,
        max_leaf_size: nat,
    ) -> bool
        decreases self,
    {
        match self {
            BvhTree::Leaf(v) => input.len() <= max_leaf_size && v@ == input,
            BvhTree::Node(l, r) => {
                &&& input.len() > max_leaf_size
                &&& exists|v: Vec<T>, res: (Vec<T>, usize)|
                    #![trigger call_ensures(split, (v,), res)]
                    {
                        &&& v@ == input
                        &&& call_ensures(split, (v,), res)
                        &&& l.built_from(res.0@.take(res.1 as int), split, max_leaf_size)
                        &&& r.built_from(res.0@.skip(res.1 as int), split, max_leaf_size)
                    }
            },
        }
    }
}

/// `split` may be called on any list longer than `max_leaf_size`, and gives
/// back a reordering of the list and a cut that leaves both parts non-empty.
pub open spec fn splits_well<T, S: Fn(Vec<T>) -> (Vec<T>, usize)>(split: S, max_leaf_size: usize) -> bool {
    &&& forall|v: Vec<T>| v@.len() > max_leaf_size ==> #[trigger] call_requires(split, (v,))
    &&& forall|v: Vec<T>, r: (Vec<T>, usize)|
        v@.len() > max_leaf_size && #[trigger] call_ensures(split, (v,), r) ==> {
            &&& r.0@.len() == v@.len()
            &&& r.0@.to_multiset() == v@.to_multiset()
            &&& 0 < r.1 < v@.len()
        }
}

/// Builds the hierarchy over `items`: at most `max_leaf_size` items make a
/// leaf; more are reordered and cut in two by `split`, and each part gets a
/// hierarchy of its own.
pub fn build_bvh_tree<T, S: Fn(Vec<T>) -> (Vec<T>, usize)>(
    items: Vec<T>,
    max_leaf_size: usize,
    split: &S,
) -> (r: BvhTree<T>)
    requires
        splits_well(*split, max_leaf_size),
    ensures
        r.items().to_multiset() == items@.to_multiset(),
        r.items().len() == items@.len(),
        r.well_shaped(max_leaf_size as nat),
        items@.len() <= max_leaf_size ==> r is Leaf && r.items() == items@,
        items@.len() > max_leaf_size ==> r is Node,
        r.built_from(items@, *split, max_leaf_size as nat),
        items@.len() > max_leaf_size ==> exists|res: (Vec<T>, usize)|
            #![trigger call_ensures(*split, (items,), res)]
            call_ensures(*split, (items,), res) && (r matches BvhTree::Node(a, b) && a.items().to_multiset()
                == res.0@.take(res.1 as int).to_multiset() && b.items().to_multiset() == res.0@.skip(
                res.1 as int,
            ).to_multiset()),
    decreases items@.len(),
{
    if items.len() <= max_leaf_size {
        return BvhTree::Leaf(items);
    }
    let ghost whole = items;
    let pair = split(items);
    let ghost res = pair;
    let (mut left, cut) = pair;
    let ghost reordered = left@;
    let right = left.split_off(cut);
    proof {
        assert(reordered =~= left@ + right@);
        assert(left@ =~= res.0@.take(res.1 as int));
        assert(right@ =~= res.0@.skip(res.1 as int));
        vstd::seq_lib::lemma_multiset_commutative(left@, right@);
    }
    let l = build_bvh_tree(left, max_leaf_size, split);
    let r = build_bvh_tree(right, max_leaf_size, split);
    let tree = BvhTree::Node(Box::new(l), Box::new(r));
    proof {
        vstd::seq_lib::lemma_multiset_commutative(l.items(), r.items());
        assert(call_ensures(*split, (whole,), res));
        assert(tree.built_from(whole@, *split, max_leaf_size as nat));
    }
    tree
}

/// Where the equal-count split cuts a node of `n` items: in the middle.
pub fn equal_cut(n: usize) -> (r: usize)
    ensures
        r == n / 2,
        n >= 2 ==> 0 < r < n,
{
    n / 2
}

} // verus!
