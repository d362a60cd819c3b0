use deet::diff::{diff_lines, lcs, DiffLine, Grid};

#[test]
fn test_lcs() {
    let mut expected = Grid::new(5, 4);
    expected.set(1, 1, 1).unwrap();
    expected.set(1, 2, 1).unwrap();
    expected.set(1, 3, 1).unwrap();
    expected.set(2, 1, 1).unwrap();
    expected.set(2, 2, 1).unwrap();
    expected.set(2, 3, 2).unwrap();
    expected.set(3, 1, 1).unwrap();
    expected.set(3, 2, 1).unwrap();
    expected.set(3, 3, 2).unwrap();
    expected.set(4, 1, 1).unwrap();
    expected.set(4, 2, 2).unwrap();
    expected.set(4, 3, 2).unwrap();

    let result = lcs(
        &"abcd".chars().map(|c| c.to_string()).collect(),
        &"adb".chars().map(|c| c.to_string()).collect(),
    );
    assert_eq!(result.size(), expected.size());
    for row in 0..expected.size().0 {
        for col in 0..expected.size().1 {
            assert_eq!(result.get(row, col), expected.get(row, col));
        }
    }
}

#[test]
fn set_rejects_out_of_bounds_cells() {
    let mut grid = Grid::new(2, 3);
    assert!(grid.set(0, 0, 7).is_ok());
    assert!(grid.set(1, 2, 9).is_ok());
    assert!(grid.set(2, 0, 1).is_err());
    assert!(grid.set(0, 3, 1).is_err());
    assert_eq!(grid.get(0, 0), Some(7));
    assert_eq!(grid.get(1, 2), Some(9));
    assert_eq!(grid.get(2, 0), None);
}

#[test]
fn diff_walk_tags_each_line() {
    let lines1: Vec<String> = vec![String::from("a"), String::from("b")];
    let lines2: Vec<String> = vec![String::from("a"), String::from("c")];
    let table = lcs(&lines1, &lines2);
    let diff = diff_lines(&table, &lines1, &lines2, lines1.len(), lines2.len());
    assert_eq!(
        diff,
        vec![
            DiffLine::Blank,
            DiffLine::Shared(String::from("a")),
            DiffLine::Added(String::from("c")),
            DiffLine::Removed(String::from("b")),
        ]
    );
}
