use tetrust::board::{Block, Board, BOARD_HEIGHT, BOARD_WIDTH};
use tetrust::tetrimino::{Color, TetriminoType};

const RED: Color = Color { r: 255, g: 0, b: 0 };
const BLUE: Color = Color { r: 0, g: 0, b: 255 };
const EMPTY: [[u8; 4]; 4] = [[0; 4]; 4];

fn fill_row(board: &mut Board, y: usize, color: Color, skip: &[usize]) {
    let cell = [[1, 0, 0, 0], [0, 0, 0, 0], [0, 0, 0, 0], [0, 0, 0, 0]];
    for x in 0..BOARD_WIDTH {
        if !skip.contains(&x) {
            board.commit(x as isize, y as isize, &cell, color);
        }
    }
}

fn row(board: &Board, y: usize) -> Vec<Block> {
    (0..BOARD_WIDTH).map(|x| board.get_cell(x, y)).collect()
}

#[test]
fn new_board_is_empty() {
    let b = Board::new();
    for y in 0..BOARD_HEIGHT {
        for x in 0..BOARD_WIDTH {
            assert_eq!(b.get_cell(x, y), Block::Free);
            assert!(!b.is_occupied(x, y));
        }
    }
}

#[test]
fn can_fit_rejects_cells_off_the_grid() {
    let b = Board::new();
    let i_flat = TetriminoType::I.get_block(0); // row 1 set
    assert!(b.can_fit(0, 0, &i_flat));
    assert!(b.can_fit(6, 18, &i_flat));
    assert!(!b.can_fit(-1, 0, &i_flat));
    assert!(!b.can_fit(7, 0, &i_flat));
    assert!(!b.can_fit(0, 19, &i_flat));
    assert!(!b.can_fit(0, -2, &i_flat));
    // the empty top row may hang above the grid
    assert!(b.can_fit(3, -1, &i_flat));
    assert!(!b.can_fit(isize::MIN, isize::MAX, &i_flat));
    assert!(!b.can_fit(isize::MAX, isize::MIN, &i_flat));
}

#[test]
fn can_fit_rejects_occupied_cells() {
    let mut b = Board::new();
    fill_row(&mut b, 10, RED, &[4]);
    let o = TetriminoType::O.get_block(0); // columns 1 and 2, rows 0 and 1
    assert!(!b.can_fit(0, 9, &o));
    assert!(b.can_fit(0, 8, &o));
    assert!(b.can_fit(0, 11, &o));
    let i_tall = TetriminoType::I.get_block(3); // column 1
    assert!(b.can_fit(3, 8, &i_tall));
    assert!(!b.can_fit(2, 8, &i_tall));
}

#[test]
fn empty_shape_fits_anywhere() {
    let mut b = Board::new();
    fill_row(&mut b, 0, RED, &[]);
    assert!(b.can_fit(0, 0, &EMPTY));
    assert!(b.can_fit(-100, 500, &EMPTY));
}

#[test]
fn commit_writes_the_colour_into_covered_cells() {
    let mut b = Board::new();
    let t = TetriminoType::T.get_block(0); // (1,0), (0,1), (1,1), (2,1)
    b.commit(4, 5, &t, BLUE);
    let mut occupied = Vec::new();
    for y in 0..BOARD_HEIGHT {
        for x in 0..BOARD_WIDTH {
            if let Block::Occupied(c) = b.get_cell(x, y) {
                assert_eq!(c, BLUE);
                occupied.push((x, y));
            }
        }
    }
    assert_eq!(occupied, vec![(5, 5), (4, 6), (5, 6), (6, 6)]);
}

#[test]
fn commit_skips_cells_off_the_grid() {
    let mut b = Board::new();
    let i_flat = TetriminoType::I.get_block(0);
    b.commit(8, 0, &i_flat, RED);
    assert_eq!(b.get_cell(8, 1), Block::Occupied(RED));
    assert_eq!(b.get_cell(9, 1), Block::Occupied(RED));
    assert_eq!(b.get_cell(7, 1), Block::Free);
    b.commit(0, -3, &i_flat, RED);
    assert_eq!(row(&b, 0), vec![Block::Free; BOARD_WIDTH]);
}

#[test]
fn full_row_detection() {
    let mut b = Board::new();
    fill_row(&mut b, 19, RED, &[]);
    fill_row(&mut b, 18, RED, &[9]);
    assert!(b.can_erase_row(19));
    assert!(!b.can_erase_row(18));
    assert!(!b.can_erase_row(0));
}

#[test]
fn clear_with_no_full_row_changes_nothing() {
    let mut b = Board::new();
    fill_row(&mut b, 19, RED, &[3]);
    assert_eq!(b.clear_full_rows(), 0);
    let mut expected = vec![Block::Occupied(RED); BOARD_WIDTH];
    expected[3] = Block::Free;
    assert_eq!(row(&b, 19), expected);
}

#[test]
fn clear_non_adjacent_full_rows() {
    let mut b = Board::new();
    fill_row(&mut b, 19, RED, &[]);
    fill_row(&mut b, 18, BLUE, &[0]);
    fill_row(&mut b, 17, RED, &[]);
    fill_row(&mut b, 16, BLUE, &[1, 2]);
    fill_row(&mut b, 15, RED, &[]);
    assert_eq!(b.clear_full_rows(), 3);
    let mut r18 = vec![Block::Occupied(BLUE); BOARD_WIDTH];
    r18[0] = Block::Free;
    let mut r16 = vec![Block::Occupied(BLUE); BOARD_WIDTH];
    r16[1] = Block::Free;
    r16[2] = Block::Free;
    assert_eq!(row(&b, 19), r18);
    assert_eq!(row(&b, 18), r16);
    for y in 0..18 {
        assert_eq!(row(&b, y), vec![Block::Free; BOARD_WIDTH], "row {}", y);
    }
}

#[test]
fn commit_then_clear_removes_completed_rows() {
    let mut b = Board::new();
    // rows 18 and 19 full except column 9, row 17 has one block
    fill_row(&mut b, 19, RED, &[9]);
    fill_row(&mut b, 18, RED, &[9]);
    fill_row(&mut b, 17, BLUE, &[1, 2, 3, 4, 5, 6, 7, 8, 9]);
    // a vertical I in column 9 completes both rows and pokes up to row 16
    let i_tall = TetriminoType::I.get_block(1); // column 2
    assert!(b.can_fit(7, 16, &i_tall));
    b.commit(7, 16, &i_tall, BLUE);
    assert_eq!(b.clear_full_rows(), 2);
    let mut r19 = vec![Block::Free; BOARD_WIDTH];
    r19[0] = Block::Occupied(BLUE);
    r19[9] = Block::Occupied(BLUE);
    let mut r18 = vec![Block::Free; BOARD_WIDTH];
    r18[9] = Block::Occupied(BLUE);
    assert_eq!(row(&b, 19), r19);
    assert_eq!(row(&b, 18), r18);
    for y in 0..18 {
        assert_eq!(row(&b, y), vec![Block::Free; BOARD_WIDTH]);
    }
}

#[test]
fn clear_whole_board() {
    let mut b = Board::new();
    for y in 0..BOARD_HEIGHT {
        fill_row(&mut b, y, RED, &[]);
    }
    assert_eq!(b.clear_full_rows(), BOARD_HEIGHT);
    for y in 0..BOARD_HEIGHT {
        assert_eq!(row(&b, y), vec![Block::Free; BOARD_WIDTH]);
    }
}
