use tetris::blocks::Block;
use tetris::blocks::BlockType;
use tetris::blocks::Rectangle;
use tetris::blocks::Rotation;
use tetris::game::Game;
use tetris::graphic::ConsoleColor;
use tetris::graphic::Grid;

fn all_types() -> Vec<BlockType> {
    vec![
        BlockType::T,
        BlockType::I,
        BlockType::O,
        BlockType::J,
        BlockType::L,
        BlockType::S,
        BlockType::Z,
    ]
}

fn all_rotations() -> Vec<Rotation> {
    vec![Rotation::D0, Rotation::D90, Rotation::D180, Rotation::D270]
}

fn occupied_cells(g: &Grid) -> usize {
    let mut n = 0;
    for x in 0..g.height() {
        for y in 0..g.width() {
            if g.check(x, y) {
                n += 1;
            }
        }
    }
    n
}

fn block(t: BlockType, x: i32, y: i32, r: Rotation) -> Block {
    Block { block_type: t, x, y, rotation: r, color: ConsoleColor::Red }
}

#[test]
fn offsets_are_four_distinct_cells() {
    for t in all_types() {
        for r in all_rotations() {
            let rects: [Rectangle; 4] = t.rectangles(r);
            for i in 0..4 {
                for j in (i + 1)..4 {
                    assert_ne!(rects[i], rects[j]);
                }
            }
        }
    }
}

#[test]
fn rotate_right_four_times_round_trip() {
    let grid = Grid::new(10, 20);
    for t in all_types() {
        let mut b = block(t, 5, 5, Rotation::D0);
        for _ in 0..4 {
            b.rotate_right(&grid);
        }
        assert_eq!(b, block(t, 5, 5, Rotation::D0));
    }
}

#[test]
fn rotate_left_four_times_round_trip() {
    let grid = Grid::new(10, 20);
    for t in all_types() {
        let mut b = block(t, 5, 5, Rotation::D0);
        for _ in 0..4 {
            b.rotate_left(&grid);
        }
        assert_eq!(b, block(t, 5, 5, Rotation::D0));
    }
}

#[test]
fn clear_on_grid_without_complete_rows_is_a_no_op() {
    let mut g = Grid::new(4, 5);
    g.set(0, 1, ConsoleColor::Blue);
    g.set(3, 0, ConsoleColor::Green);
    g.set(3, 1, ConsoleColor::Green);
    g.set(3, 2, ConsoleColor::Green);
    g.set(4, 3, ConsoleColor::Cyan);
    assert_eq!(g.clear_completed_rows(), 0);
    assert_eq!(*g.get(0, 1), Some(ConsoleColor::Blue));
    assert_eq!(*g.get(3, 0), Some(ConsoleColor::Green));
    assert_eq!(*g.get(3, 1), Some(ConsoleColor::Green));
    assert_eq!(*g.get(3, 2), Some(ConsoleColor::Green));
    assert_eq!(*g.get(4, 3), Some(ConsoleColor::Cyan));
    assert_eq!(occupied_cells(&g), 5);
}

#[test]
fn second_clear_directly_after_a_first_clears_nothing() {
    let mut g = Grid::new(3, 4);
    for y in 0..3 {
        g.set(1, y, ConsoleColor::Purple);
        g.set(3, y, ConsoleColor::Orange);
    }
    g.set(2, 0, ConsoleColor::Red);
    assert_eq!(g.clear_completed_rows(), 2);
    assert_eq!(g.clear_completed_rows(), 0);
    assert_eq!(occupied_cells(&g), 1);
    assert_eq!(*g.get(3, 0), Some(ConsoleColor::Red));
}

#[test]
fn clearing_the_bottom_row_shifts_everything_down_one() {
    let mut g = Grid::new(3, 3);
    g.set(0, 1, ConsoleColor::Blue);
    g.set(1, 2, ConsoleColor::Green);
    for y in 0..3 {
        g.set(2, y, ConsoleColor::Red);
    }
    assert_eq!(g.clear_completed_rows(), 1);
    for y in 0..3 {
        assert_eq!(*g.get(0, y), None);
    }
    assert_eq!(*g.get(1, 1), Some(ConsoleColor::Blue));
    assert_eq!(*g.get(2, 2), Some(ConsoleColor::Green));
    assert_eq!(occupied_cells(&g), 2);
}

#[test]
fn move_down_one_step_above_the_floor_is_refused() {
    let grid = Grid::new(10, 20);
    let mut b = block(BlockType::O, 18, 4, Rotation::D0);
    assert!(!b.move_down(&grid));
    assert_eq!(b, block(BlockType::O, 18, 4, Rotation::D0));
}

#[test]
fn move_down_in_open_space_advances_one_row() {
    let grid = Grid::new(10, 20);
    let mut b = block(BlockType::O, 10, 4, Rotation::D0);
    assert!(b.move_down(&grid));
    assert_eq!(b, block(BlockType::O, 11, 4, Rotation::D0));
}

#[test]
fn second_smack_changes_nothing() {
    let grid = Grid::new(10, 20);
    let mut b = block(BlockType::T, 1, 5, Rotation::D0);
    b.smack(&grid);
    let dropped = b;
    assert_eq!(dropped.x, 18);
    b.smack(&grid);
    assert_eq!(b, dropped);
}

#[test]
fn piece_with_a_cell_above_the_top_reports_over() {
    let above = block(BlockType::T, 0, 5, Rotation::D0);
    assert!(above.over());
    let inside = block(BlockType::T, 1, 5, Rotation::D0);
    assert!(!inside.over());
}

#[test]
fn lateral_moves_respect_the_walls() {
    let grid = Grid::new(10, 20);
    let mut b = block(BlockType::O, 5, 0, Rotation::D0);
    assert!(!b.move_left(&grid));
    assert_eq!(b.y, 0);
    assert!(b.move_right(&grid));
    assert_eq!(b.y, 1);
    let mut r = block(BlockType::O, 5, 8, Rotation::D0);
    assert!(!r.move_right(&grid));
    assert_eq!(r.y, 8);
}

#[test]
fn rotation_against_a_wall_is_refused() {
    let grid = Grid::new(10, 20);
    let mut b = block(BlockType::T, 5, 0, Rotation::D0);
    b.rotate_right(&grid);
    assert_eq!(b.rotation, Rotation::D0);
    assert_eq!(b.y, 0);
}

#[test]
fn draw_paints_exactly_the_four_cells() {
    let mut grid = Grid::new(10, 20);
    let b = block(BlockType::S, 5, 5, Rotation::D0);
    b.draw(&mut grid);
    assert_eq!(occupied_cells(&grid), 4);
    assert_eq!(*grid.get(4, 5), Some(ConsoleColor::Red));
    assert_eq!(*grid.get(5, 5), Some(ConsoleColor::Red));
    assert_eq!(*grid.get(5, 6), Some(ConsoleColor::Red));
    assert_eq!(*grid.get(6, 6), Some(ConsoleColor::Red));
}

#[test]
fn new_block_spawns_at_the_given_anchor() {
    for _ in 0..100 {
        let b = Block::new(0, 5);
        assert_eq!(b.x, 0);
        assert_eq!(b.y, 5);
    }
}

#[test]
fn random_draws_vary_over_time() {
    let mut seen = Vec::new();
    for _ in 0..200 {
        let b = Block::new(0, 5);
        if !seen.contains(&b.block_type) {
            seen.push(b.block_type);
        }
    }
    assert!(seen.len() > 1);
}

#[test]
fn ticking_until_lock_settles_exactly_four_cells() {
    let mut game = Game::new();
    assert!(game.moving_block.is_none());
    let mut ticks = 0;
    loop {
        let over = game.update();
        assert!(!over);
        ticks += 1;
        assert!(ticks <= 25);
        if game.moving_block.is_none() {
            break;
        }
    }
    assert_eq!(occupied_cells(&game.grid), 4);
    assert_eq!(game.score, 0);
}

#[test]
fn smack_then_tick_locks_the_piece() {
    let mut game = Game::new();
    game.moving_block = Some(block(BlockType::O, 1, 4, Rotation::D0));
    game.smack();
    let dropped = game.moving_block.unwrap();
    assert_eq!(dropped.x, 18);
    assert!(!game.update());
    assert!(game.moving_block.is_none());
    assert_eq!(occupied_cells(&game.grid), 4);
    assert!(game.grid.check(18, 4));
    assert!(game.grid.check(18, 5));
    assert!(game.grid.check(19, 4));
    assert!(game.grid.check(19, 5));
}

#[test]
fn session_commands_without_a_piece_are_no_ops() {
    let mut game = Game::new();
    game.rotate_left();
    game.rotate_right();
    game.move_left();
    game.move_right();
    game.smack();
    assert!(game.moving_block.is_none());
    assert_eq!(game.score, 0);
    assert_eq!(occupied_cells(&game.grid), 0);
}

#[test]
fn session_forwards_lateral_moves_to_the_piece() {
    let mut game = Game::new();
    game.moving_block = Some(block(BlockType::T, 5, 5, Rotation::D0));
    game.move_left();
    assert_eq!(game.moving_block.unwrap().y, 4);
    game.move_right();
    game.move_right();
    assert_eq!(game.moving_block.unwrap().y, 6);
    game.rotate_right();
    assert_eq!(game.moving_block.unwrap().rotation, Rotation::D90);
    assert_eq!(game.score, 0);
}

#[test]
fn compose_overlays_the_piece_without_touching_the_session() {
    let mut game = Game::new();
    game.moving_block = Some(block(BlockType::I, 5, 5, Rotation::D90));
    let snapshot = game.compose();
    assert_eq!(occupied_cells(&snapshot), 4);
    assert_eq!(occupied_cells(&game.grid), 0);
    assert_eq!(game.moving_block.unwrap(), block(BlockType::I, 5, 5, Rotation::D90));
}

#[test]
fn completing_a_row_scores_one_point() {
    let mut game = Game::new();
    for y in 0..10 {
        if y != 4 && y != 5 {
            game.grid.set(19, y, ConsoleColor::Blue);
        }
    }
    game.moving_block = Some(block(BlockType::O, 17, 4, Rotation::D0));
    assert!(!game.update());
    assert!(!game.update());
    assert!(game.moving_block.is_none());
    assert_eq!(game.score, 1);
    assert_eq!(occupied_cells(&game.grid), 2);
    assert!(game.grid.check(19, 4));
    assert!(game.grid.check(19, 5));
}

#[test]
fn grid_reports_its_fixed_dimensions() {
    let g = Grid::new(7, 11);
    assert_eq!(g.width(), 7);
    assert_eq!(g.height(), 11);
    assert!(!g.check(0, 0));
    let mut g2 = g.duplicate();
    g2.set(0, 0, ConsoleColor::Black);
    assert!(g2.check(0, 0));
    assert!(!g.check(0, 0));
}
