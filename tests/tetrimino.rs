use tetrust::tetrimino::{Color, Tetrimino, TetriminoType};

const KINDS: [TetriminoType; 7] = [
    TetriminoType::I,
    TetriminoType::O,
    TetriminoType::T,
    TetriminoType::S,
    TetriminoType::Z,
    TetriminoType::J,
    TetriminoType::L,
];

#[test]
fn every_shape_is_nonempty_and_binary() {
    for kind in KINDS {
        for state in 0..4 {
            let block = kind.get_block(state);
            let mut set = 0;
            for row in block.iter() {
                for cell in row.iter() {
                    assert!(*cell <= 1);
                    if *cell == 1 {
                        set += 1;
                    }
                }
            }
            assert_eq!(set, 4, "{:?} state {}", kind, state);
        }
    }
}

#[test]
fn o_rotations_are_identical_and_others_distinct() {
    for kind in KINDS {
        let shapes: Vec<[[u8; 4]; 4]> = (0..4).map(|s| kind.get_block(s)).collect();
        if kind == TetriminoType::O {
            assert!(shapes.iter().all(|s| *s == shapes[0]));
        } else {
            for i in 0..4 {
                for j in (i + 1)..4 {
                    assert_ne!(shapes[i], shapes[j], "{:?} {} {}", kind, i, j);
                }
            }
        }
    }
}

#[test]
fn shape_table_entries() {
    assert_eq!(
        TetriminoType::I.get_block(0),
        [[0, 0, 0, 0], [1, 1, 1, 1], [0, 0, 0, 0], [0, 0, 0, 0]]
    );
    assert_eq!(
        TetriminoType::I.get_block(3),
        [[0, 1, 0, 0], [0, 1, 0, 0], [0, 1, 0, 0], [0, 1, 0, 0]]
    );
    assert_eq!(
        TetriminoType::S.get_block(3),
        [[1, 0, 0, 0], [1, 1, 0, 0], [0, 1, 0, 0], [0, 0, 0, 0]]
    );
    assert_eq!(
        TetriminoType::L.get_block(2),
        [[1, 1, 1, 0], [1, 0, 0, 0], [0, 0, 0, 0], [0, 0, 0, 0]]
    );
}

#[test]
fn colors_of_kinds() {
    assert_eq!(TetriminoType::I.get_color(), Color { r: 0, g: 255, b: 255 });
    assert_eq!(TetriminoType::O.get_color(), Color { r: 255, g: 255, b: 0 });
    assert_eq!(TetriminoType::T.get_color(), Color { r: 128, g: 0, b: 128 });
    assert_eq!(TetriminoType::S.get_color(), Color { r: 0, g: 128, b: 0 });
    assert_eq!(TetriminoType::Z.get_color(), Color { r: 255, g: 0, b: 0 });
    assert_eq!(TetriminoType::J.get_color(), Color { r: 0, g: 0, b: 255 });
    assert_eq!(TetriminoType::L.get_color(), Color { r: 255, g: 165, b: 0 });
    let t = Tetrimino::new(TetriminoType::L);
    assert_eq!(t.get_color(), Color { r: 255, g: 165, b: 0 });
    assert_eq!(t.to_color(), t.get_color());
}

#[test]
fn new_piece_starts_in_state_zero() {
    let t = Tetrimino::new(TetriminoType::T);
    assert_eq!(t.ttype(), TetriminoType::T);
    assert_eq!(t.state(), 0);
    assert_eq!(t.get_block(), TetriminoType::T.get_block(0));
    assert_eq!(t.to_block(), t.get_block());
}

#[test]
fn clockwise_goes_down_and_wraps() {
    let t = Tetrimino::new(TetriminoType::J);
    let a = t.rotate_clockwise();
    assert_eq!(a.state(), 3);
    assert_eq!(a.ttype(), TetriminoType::J);
    assert_eq!(a.rotate_clockwise().state(), 2);
    assert_eq!(a.rotate_clockwise().rotate_clockwise().state(), 1);
    assert_eq!(a.get_block(), TetriminoType::J.get_block(3));
    // the piece that was turned is left alone
    assert_eq!(t.state(), 0);
}

#[test]
fn counter_clockwise_goes_up_and_wraps() {
    let t = Tetrimino::new(TetriminoType::Z);
    let mut s = t;
    for expected in [1, 2, 3, 0] {
        s = s.rotate_counter_clockwise();
        assert_eq!(s.state(), expected);
        assert_eq!(s.ttype(), TetriminoType::Z);
    }
}

#[test]
fn rotation_is_cyclic_of_order_four() {
    for kind in KINDS {
        let mut t = Tetrimino::new(kind);
        for _ in 0..4 {
            let four = t
                .rotate_clockwise()
                .rotate_clockwise()
                .rotate_clockwise()
                .rotate_clockwise();
            assert_eq!(four.state(), t.state());
            assert_eq!(t.rotate_clockwise().rotate_counter_clockwise().state(), t.state());
            assert_eq!(t.rotate_counter_clockwise().rotate_clockwise().state(), t.state());
            t = t.rotate_counter_clockwise();
        }
    }
}
