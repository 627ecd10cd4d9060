use snake::{Food, Pos};

#[test]
fn randomize_lands_on_the_grid() {
    for _ in 0..500 {
        let f = Food::randomize(13, 10);
        assert_eq!(f.max, Pos { x: 13, y: 10 });
        assert!(1 <= f.pos.x && f.pos.x <= 13);
        assert!(1 <= f.pos.y && f.pos.y <= 10);
    }
}

#[test]
fn new_lands_on_the_grid() {
    for _ in 0..500 {
        let f = Food::new(3, 7);
        assert_eq!(f.max, Pos { x: 3, y: 7 });
        assert!(1 <= f.pos.x && f.pos.x <= 3);
        assert!(1 <= f.pos.y && f.pos.y <= 7);
    }
}

#[test]
fn one_cell_grid_has_one_place() {
    for _ in 0..50 {
        assert_eq!(Food::randomize(1, 1).pos, Pos { x: 1, y: 1 });
    }
}

#[test]
fn single_row_and_single_column() {
    for _ in 0..200 {
        let row = Food::randomize(9, 1);
        assert_eq!(row.pos.y, 1);
        assert!(1 <= row.pos.x && row.pos.x <= 9);
        let column = Food::randomize(1, 9);
        assert_eq!(column.pos.x, 1);
        assert!(1 <= column.pos.y && column.pos.y <= 9);
    }
}

#[test]
fn eat_keeps_the_grid() {
    let mut f = Food::new(13, 10);
    for _ in 0..500 {
        f.eat();
        assert_eq!(f.max, Pos { x: 13, y: 10 });
        assert!(1 <= f.pos.x && f.pos.x <= 13);
        assert!(1 <= f.pos.y && f.pos.y <= 10);
    }
}

#[test]
fn draws_are_not_all_the_same() {
    // A generator that handed back one of its bounds would put every draw
    // in one corner.
    let first = Food::randomize(13, 10).pos;
    let mut other = false;
    let mut columns = [false; 13];
    let mut rows = [false; 10];
    for _ in 0..2000 {
        let p = Food::randomize(13, 10).pos;
        other = other || p != first;
        columns[(p.x - 1) as usize] = true;
        rows[(p.y - 1) as usize] = true;
    }
    assert!(other);
    assert!(columns.iter().all(|seen| *seen));
    assert!(rows.iter().all(|seen| *seen));
}

#[test]
fn largest_grid_is_accepted() {
    let f = Food::randomize(u32::MAX, u32::MAX);
    assert!(f.pos.x >= 1 && f.pos.y >= 1);
}
