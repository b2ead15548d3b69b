use rustrt::Array2d;

#[test]
fn new_array_is_filled_with_default() {
    let a: Array2d<i32> = Array2d::new(3, 2);
    assert_eq!(a.size_x, 3);
    assert_eq!(a.size_y, 2);
    assert_eq!(a.size(), 6);
    assert_eq!(a.data, vec![0; 6]);
}

#[test]
fn empty_array_has_no_cells() {
    let a: Array2d<u8> = Array2d::new(0, 5);
    assert_eq!(a.size(), 0);
    assert!(a.data.is_empty());
}

#[test]
fn index_1d_is_row_major() {
    let a: Array2d<i32> = Array2d::new(4, 3);
    assert_eq!(a.index_1d(0, 0), 0);
    assert_eq!(a.index_1d(3, 0), 3);
    assert_eq!(a.index_1d(0, 1), 4);
    assert_eq!(a.index_1d(2, 2), 10);
}

#[test]
fn write_then_read_cell() {
    let mut a: Array2d<i32> = Array2d::new(3, 3);
    *a.index_mut(1, 2) = 42;
    *a.index_mut(2, 1) = 7;
    assert_eq!(*a.index(1, 2), 42);
    assert_eq!(*a.index(2, 1), 7);
    assert_eq!(*a.index(0, 0), 0);
    assert_eq!(a.data[7], 42);
    assert_eq!(a.data[5], 7);
}

#[test]
fn from_rows_lays_rows_one_after_the_other() {
    let rows = vec![vec![1, 2, 3], vec![4, 5, 6]];
    let a = Array2d::from_rows(rows, 3);
    assert_eq!(a.size_x, 3);
    assert_eq!(a.size_y, 2);
    assert_eq!(a.data, vec![1, 2, 3, 4, 5, 6]);
    assert_eq!(*a.index(2, 1), 6);
    assert_eq!(*a.index(0, 1), 4);
}

#[test]
fn from_rows_of_nothing() {
    let rows: Vec<Vec<f32>> = Vec::new();
    let a = Array2d::from_rows(rows, 7);
    assert_eq!(a.size_y, 0);
    assert!(a.data.is_empty());
}

#[test]
fn new_cells_share_one_default_value() {
    let a: rustrt::Array2d<std::rc::Rc<u32>> = rustrt::Array2d::new(2, 2);
    assert_eq!(std::rc::Rc::strong_count(&a.data[0]), 4);
    assert!(a.data.iter().all(|c| std::rc::Rc::ptr_eq(c, &a.data[3])));
    let empty: rustrt::Array2d<std::rc::Rc<u32>> = rustrt::Array2d::new(0, 3);
    assert!(empty.data.is_empty());
}
