use vstd::prelude::*;

verus! {

/// A surface description as it is nested in a scene: a single entry, or a
/// group whose children are descriptions themselves.
#[derive(Debug)]
pub enum SurfaceTree<P> {
    Item(P),
    Group(Vec<SurfaceTree<P>>),
}

impl<P> SurfaceTree<P> {
    /// The single entries of the tree, depth first, children in order.
    pub open spec fn entries(self) -> Seq<P>
        decreases self,
    {
        match self {
            SurfaceTree::Item(p) => seq![p],
            SurfaceTree::Group(cs) => entries_of(cs@),
        }
    }
}

/// The single entries of the trees `ts`, one tree after the other.
pub open spec fn entries_of<P>(ts: Seq<SurfaceTree<P>>) -> Seq<P>
    decreases ts,
{
    if ts.len() == 0 {
        Seq::empty()
    } else {
        entries_of(ts.drop_last()) + ts.last().entries()
    }
}

/// Lists the single entries of a nested description in order: a group
/// stands for the entries of its children, one child after the other.
pub fn flatten<P>(tree: SurfaceTree<P>) -> (r: Vec<P>)
    ensures
        r@ == tree.entries(),
    decreases tree,
{
    match tree {
        SurfaceTree::Item(p) => {
            let mut r: Vec<P> = Vec::new();
            r.push(p);
            assert(r@ =~= seq![p]);
            r
        },
        SurfaceTree::Group(children) => {
            let ghost cs = children@;
            let mut r: Vec<P> = Vec::new();
            for child in it: children.into_iter()
                invariant
                    it.seq() == cs,
                    tree == SurfaceTree::Group(children),
                    children@ == cs,
                    r@ == entries_of(cs.take(it.index() as int)),
            {
                let ghost i = it.index() as int;
                assert(child == cs[i]);
                proof {
                    assert(decreases_to!(tree => tree->Group_0));
                    assert(decreases_to!(tree->Group_0 => tree->Group_0@));
                    assert(decreases_to!(cs => cs[i]));
                }
                let mut part = flatten(child);
                r.append(&mut part);
                assert(cs.take(i + 1).drop_last() =~= cs.take(i));
            }
            assert(cs.take(cs.len() as int) =~= cs);
            r
        },
    }
}

} // verus!
