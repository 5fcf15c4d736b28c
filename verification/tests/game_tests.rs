use merge_puzzle::game::{Game, GameIndex};

const SEED: u64 = 0xCAFEBABE;

#[test]
fn game_new_cell() {
    let g = Game::start_with_seed(SEED);
    let board = g.board();

    for i in 0..board.len() {
        let val = board[i];
        if i == 14 {
            assert_eq!(2, val);
        } else {
            assert_eq!(0, val);
        }
    }
}

#[test]
fn game_up() {
    let mut g = Game::start_with_seed(SEED);
    g.up();
    let board = g.board();

    for i in 0..board.len() {
        let val = board[i];
        if i == 2 {
            assert_eq!(2, val);
        } else if i == 11 {
            assert_eq!(4, val);
        } else {
            assert_eq!(0, val);
        }
    }
}

#[test]
fn game_down() {
    let mut g = Game::start_with_seed(SEED);
    g.up();
    g.down();
    let board = g.board();

    for i in 0..board.len() {
        let val = board[i];
        if i == 2 {
            assert_eq!(4, val);
        } else if i == 14 {
            assert_eq!(2, val);
        } else if i == 15 {
            assert_eq!(4, val);
        } else {
            assert_eq!(0, val);
        }
    }
}

#[test]
fn game_left() {
    let mut g = Game::start_with_seed(SEED);
    g.left();
    let board = g.board();

    for i in 0..board.len() {
        let val = board[i];
        if i == 11 {
            assert_eq!(4, val);
        } else if i == 12 {
            assert_eq!(2, val);
        } else {
            assert_eq!(0, val);
        }
    }
}

#[test]
fn game_right() {
    let mut g = Game::start_with_seed(SEED);
    g.right();
    let board = g.board();

    for i in 0..board.len() {
        let val = board[i];
        if i == 11 {
            assert_eq!(4, val);
        } else if i == 15 {
            assert_eq!(2, val);
        } else {
            assert_eq!(0, val);
        }
    }
}

#[test]
fn game_upleft() {
    let mut g = Game::start_with_seed(SEED);
    g.left();
    g.up();
    let board = g.board();

    for i in 0..board.len() {
        let val = board[i];
        if i == 0 {
            assert_eq!(2, val);
        } else if i == 2 {
            assert_eq!(4, val);
        } else if i == 3 {
            assert_eq!(4, val);
        } else {
            assert_eq!(0, val);
        }
    }
}

#[test]
fn game_upright() {
    let mut g = Game::start_with_seed(SEED);
    g.right();
    g.up();
    let board = g.board();

    for i in 0..board.len() {
        let val = board[i];
        if i == 2 {
            assert_eq!(4, val);
        } else if i == 3 {
            assert_eq!(4, val);
        } else if i == 15 {
            assert_eq!(2, val);
        } else {
            assert_eq!(0, val);
        }
    }
}

#[test]
fn game_downleft() {
    let mut g = Game::start_with_seed(SEED);
    g.left();
    g.down();
    let board = g.board();

    for i in 0..board.len() {
        let val = board[i];
        if i == 2 {
            assert_eq!(4, val);
        } else if i == 12 {
            assert_eq!(2, val);
        } else if i == 15 {
            assert_eq!(4, val);
        } else {
            assert_eq!(0, val);
        }
    }
}

#[test]
fn idx_conversions() {
    let g = Game::start_with_seed(SEED);

    println!("0 = (0, 0)");
    let rc = g.index_to_row_col(0);
    assert_eq!(0, rc.r);
    assert_eq!(0, rc.c);

    println!("15 = (3, 3)");
    let rc = g.index_to_row_col(15);
    assert_eq!(3, rc.r);
    assert_eq!(3, rc.c);

    println!("8 = (2, 0)");
    let rc = g.index_to_row_col(8);
    assert_eq!(2, rc.r);
    assert_eq!(0, rc.c);
}

#[test]
fn rc_conversions() {
    let g = Game::start_with_seed(SEED);

    println!("0 = (0, 0)");
    let idx = g.row_col_to_idx(&GameIndex::new(0, 0));
    assert_eq!(0, idx);

    println!("15 = (3, 3)");
    let idx = g.row_col_to_idx(&GameIndex::new(3, 3));
    assert_eq!(15, idx);

    println!("8 = (2, 0)");
    let idx = g.row_col_to_idx(&GameIndex::new(2, 0));
    assert_eq!(8, idx);
}

#[test]
fn same_seed_same_session() {
    let mut a = Game::start_with_seed(42);
    let mut b = Game::start_with_seed(42);
    assert_eq!(a.board(), b.board());

    a.up();
    b.up();
    assert_eq!(a.board(), b.board());
    assert_eq!(a.score(), b.score());

    a.left();
    b.left();
    a.down();
    b.down();
    a.right();
    b.right();
    assert_eq!(a.board(), b.board());
    assert_eq!(a.score(), b.score());
    assert_eq!(a.seed(), b.seed());
}

#[test]
fn start_records_replayable_seed() {
    let g = Game::start();
    let replay = Game::start_with_seed(g.seed());
    assert_eq!(g.board(), replay.board());
    assert_eq!(g.score(), replay.score());
}

#[test]
fn fresh_board_holds_one_tile() {
    let g = Game::start();
    let board = g.board();
    assert_eq!(16, board.len());
    let nonzero: Vec<u32> = board.iter().copied().filter(|v| *v != 0).collect();
    assert_eq!(1, nonzero.len());
    assert!(nonzero[0] == 2 || nonzero[0] == 4);
}

#[test]
fn cells_stay_powers_of_two() {
    let mut g = Game::start_with_seed(0x1234_5678_9ABC_DEF0);
    for _ in 0..50 {
        g.up();
        g.left();
        g.down();
        g.right();
        let board = g.board();
        assert_eq!(16, board.len());
        for &v in board.iter() {
            assert!(v == 0 || (v >= 2 && v & (v - 1) == 0));
        }
    }
}

#[test]
fn score_never_changes() {
    let mut g = Game::start_with_seed(7);
    assert_eq!(0, g.score());
    for _ in 0..20 {
        g.up();
        g.down();
        g.left();
        g.right();
    }
    assert_eq!(0, g.score());
}

#[test]
fn coordinate_round_trip_all_indices() {
    let g = Game::start_with_seed(SEED);
    for i in 0..16 {
        let rc = g.index_to_row_col(i);
        assert!(rc.r < 4 && rc.c < 4);
        assert_eq!(i, g.row_col_to_idx(&rc));
    }
}

#[test]
fn new_cell_overwrites_one_cell() {
    let mut g = Game::start_with_seed(3);
    let before = g.board().clone();
    g.new_cell();
    let after = g.board();
    assert_eq!(16, after.len());
    let diffs: Vec<usize> = (0..16).filter(|&i| before[i] != after[i]).collect();
    assert!(diffs.len() <= 1);
    for &i in &diffs {
        assert!(after[i] == 2 || after[i] == 4);
    }
}
