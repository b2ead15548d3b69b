use rustrt::bvh::{build_bvh_tree, equal_cut, BvhTree};
use rustrt::split::partition;

fn sorted(mut v: Vec<u32>) -> Vec<u32> {
    v.sort();
    v
}

#[test]
fn partition_moves_satisfying_items_first() {
    let mut v = vec![1u32, 8, 3, 6, 5, 2, 7];
    let cut = partition(&mut v, |x: &u32| x % 2 == 0, 1);
    assert_eq!(cut, 3);
    assert!(v[..cut].iter().all(|x| x % 2 == 0));
    assert!(v[cut..].iter().all(|x| x % 2 == 1));
    assert_eq!(sorted(v), vec![1, 2, 3, 5, 6, 7, 8]);
}

#[test]
fn partition_all_satisfying_moves_cut_inwards() {
    let mut v = vec![2u32, 4, 6, 8, 10];
    let cut = partition(&mut v, |x: &u32| x % 2 == 0, 3);
    assert_eq!(cut, 2);
    assert_eq!(sorted(v), vec![2, 4, 6, 8, 10]);
}

#[test]
fn partition_none_satisfying_moves_cut_inwards() {
    let mut v = vec![1u32, 3, 5, 7, 9];
    let cut = partition(&mut v, |x: &u32| x % 2 == 0, 3);
    assert_eq!(cut, 3);
}

#[test]
fn partition_of_empty_with_zero_leaf() {
    let mut v: Vec<u32> = Vec::new();
    let cut = partition(&mut v, |x: &u32| *x > 3, 0);
    assert_eq!(cut, 0);
}

#[test]
fn partition_with_threshold() {
    let mut v = vec![0.1f32, 0.9, 0.4, 0.7];
    let cut = partition(&mut v, |x: &f32| *x >= 0.5, 1);
    assert_eq!(cut, 2);
    assert!(v[0] >= 0.5 && v[1] >= 0.5);
    assert!(v[2] < 0.5 && v[3] < 0.5);
}

fn leaves(t: &BvhTree<u32>, out: &mut Vec<usize>, items: &mut Vec<u32>) {
    match t {
        BvhTree::Leaf(v) => {
            out.push(v.len());
            items.extend(v.iter().cloned());
        }
        BvhTree::Node(l, r) => {
            leaves(l, out, items);
            leaves(r, out, items);
        }
    }
}

#[test]
fn bvh_tree_keeps_every_item_in_small_leaves() {
    let items: Vec<u32> = (0..20).collect();
    let split = |v: Vec<u32>| {
        let n = v.len();
        (v, equal_cut(n))
    };
    let tree = build_bvh_tree(items, 3, &split);
    let mut sizes = Vec::new();
    let mut all = Vec::new();
    leaves(&tree, &mut sizes, &mut all);
    assert!(sizes.iter().all(|s| *s <= 3 && *s > 0));
    assert_eq!(all, (0..20).collect::<Vec<u32>>());
}

#[test]
fn bvh_tree_of_few_items_is_a_leaf() {
    let split = |v: Vec<u32>| {
        let n = v.len();
        (v, n / 2)
    };
    let tree = build_bvh_tree(vec![5, 6], 3, &split);
    match tree {
        BvhTree::Leaf(v) => assert_eq!(v, vec![5, 6]),
        BvhTree::Node(_, _) => panic!("expected a leaf"),
    }
}

#[test]
fn bvh_tree_with_middle_partition() {
    let items: Vec<u32> = vec![9, 1, 8, 2, 7, 3, 6, 4];
    let split = |mut v: Vec<u32>| {
        let lo = *v.iter().min().unwrap();
        let hi = *v.iter().max().unwrap();
        let middle = (lo + hi) / 2;
        let cut = partition(&mut v, |x: &u32| *x >= middle, 1);
        (v, cut)
    };
    let tree = build_bvh_tree(items, 1, &split);
    let mut sizes = Vec::new();
    let mut all = Vec::new();
    leaves(&tree, &mut sizes, &mut all);
    assert!(sizes.iter().all(|s| *s == 1));
    assert_eq!(sorted(all), vec![1, 2, 3, 4, 6, 7, 8, 9]);
}

#[test]
fn equal_cut_is_half() {
    assert_eq!(equal_cut(10), 5);
    assert_eq!(equal_cut(7), 3);
}

#[test]
fn bvh_tree_follows_the_split() {
    let split = |mut v: Vec<u32>| {
        v.reverse();
        (v, 1)
    };
    let tree = build_bvh_tree(vec![1, 2, 3], 1, &split);
    match tree {
        BvhTree::Node(l, r) => {
            assert!(matches!(*l, BvhTree::Leaf(ref v) if *v == vec![3]));
            match *r {
                BvhTree::Node(rl, rr) => {
                    assert!(matches!(*rl, BvhTree::Leaf(ref v) if *v == vec![1]));
                    assert!(matches!(*rr, BvhTree::Leaf(ref v) if *v == vec![2]));
                }
                BvhTree::Leaf(_) => panic!("expected a node"),
            }
        }
        BvhTree::Leaf(_) => panic!("expected a node"),
    }
}
