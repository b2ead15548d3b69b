use rustrt::mesh::{face_attribute, face_triples};
use rustrt::surface_tree::{flatten, SurfaceTree};
use rustrt::text::{same_text, trim_char};
use rustrt::utils::lerp;

#[test]
fn same_text_compares_characters() {
    assert!(same_text("sphere", "sphere"));
    assert!(!same_text("sphere", "spheres"));
    assert!(!same_text("quad", "quaD"));
    assert!(same_text("", ""));
    assert!(same_text("héllo", "héllo"));
}

#[test]
fn trim_removes_quotes_at_both_ends() {
    assert_eq!(trim_char("\"glass\"", '"'), "glass");
    assert_eq!(trim_char("\"\"a\"b\"\"", '"'), "a\"b");
    assert_eq!(trim_char("plain", '"'), "plain");
    assert_eq!(trim_char("\"\"\"", '"'), "");
    assert_eq!(trim_char("", '"'), "");
    let once = trim_char("\"\"x\"", '"');
    assert_eq!(trim_char(&once, '"'), once);
}

#[test]
fn face_triples_group_indices() {
    let faces = face_triples(&vec![0, 1, 2, 2, 3, 0]);
    assert_eq!(faces, vec![[0, 1, 2], [2, 3, 0]]);
    assert!(face_triples(&Vec::new()).is_empty());
}

#[test]
fn face_attribute_when_present() {
    let faces = vec![[4usize, 5, 6]];
    assert_eq!(face_attribute(&faces, 0), Some([4, 5, 6]));
    assert_eq!(face_attribute(&faces, 1), None);
    assert_eq!(face_attribute(&Vec::new(), 0), None);
}

#[test]
fn flatten_nested_groups_in_order() {
    let tree = SurfaceTree::Group(vec![
        SurfaceTree::Item(1),
        SurfaceTree::Group(vec![SurfaceTree::Item(2), SurfaceTree::Group(vec![]), SurfaceTree::Item(3)]),
        SurfaceTree::Item(4),
    ]);
    assert_eq!(flatten(tree), vec![1, 2, 3, 4]);
    assert_eq!(flatten(SurfaceTree::Item("a")), vec!["a"]);
    let empty: SurfaceTree<u8> = SurfaceTree::Group(Vec::new());
    assert!(flatten(empty).is_empty());
}

#[test]
fn lerp_integers_and_floats() {
    assert_eq!(lerp(2i64, 10i64, 3i64), 26);
    assert_eq!(lerp(10i32, 2i32, 1i32), 2);
    assert_eq!(lerp(0.0f32, 4.0f32, 0.25f32), 1.0);
    assert_eq!(lerp(-1.0f64, 1.0f64, 0.5f64), 0.0);
}
