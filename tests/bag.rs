use tetrust::bag::SevenGenerator;
use tetrust::tetrimino::TetriminoType;

fn index_of(k: TetriminoType) -> usize {
    match k {
        TetriminoType::I => 0,
        TetriminoType::O => 1,
        TetriminoType::T => 2,
        TetriminoType::S => 3,
        TetriminoType::Z => 4,
        TetriminoType::J => 5,
        TetriminoType::L => 6,
    }
}

#[test]
fn each_bag_window_holds_every_kind_once() {
    let mut g = SevenGenerator::new();
    for _ in 0..20 {
        let mut seen = [0u32; 7];
        for _ in 0..7 {
            seen[index_of(g.next())] += 1;
        }
        assert_eq!(seen, [1; 7]);
    }
}

#[test]
fn repeats_are_at_most_twelve_apart() {
    let mut g = SevenGenerator::new();
    let draws: Vec<TetriminoType> = (0..140).map(|_| g.next()).collect();
    for i in 0..draws.len() {
        let later = draws[i + 1..].iter().position(|k| *k == draws[i]);
        if i + 13 < draws.len() {
            assert!(later.unwrap() < 13);
        }
    }
}

#[test]
fn bags_are_shuffled() {
    let mut firsts = Vec::new();
    for _ in 0..30 {
        let mut g = SevenGenerator::new();
        let bag: Vec<TetriminoType> = (0..7).map(|_| g.next()).collect();
        firsts.push(bag);
    }
    let unshuffled = vec![
        TetriminoType::I,
        TetriminoType::O,
        TetriminoType::T,
        TetriminoType::S,
        TetriminoType::Z,
        TetriminoType::J,
        TetriminoType::L,
    ];
    assert!(firsts.iter().any(|b| *b != unshuffled));
}

#[test]
fn given_bag_is_handed_out_in_order_then_reshuffled() {
    let bag = [
        TetriminoType::L,
        TetriminoType::J,
        TetriminoType::Z,
        TetriminoType::S,
        TetriminoType::T,
        TetriminoType::O,
        TetriminoType::I,
    ];
    let mut g = SevenGenerator::with_bag(bag);
    let first: Vec<TetriminoType> = (0..7).map(|_| g.next()).collect();
    assert_eq!(first, bag.to_vec());
    let mut seen = [0u32; 7];
    for _ in 0..7 {
        seen[index_of(g.next())] += 1;
    }
    assert_eq!(seen, [1; 7]);
}
