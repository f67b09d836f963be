use snake::game::{Control, Game, MOVING_PERIOD_US, RESTART_TIME_US};
use snake::objects::{Direction, Enemy, LeftPedal, RightPedal, Snake};

const TICK: u64 = MOVING_PERIOD_US + 1;

#[test]
fn turn_down_from_right_moves_head_down() {
    let mut g = Game::new(30, 30);
    assert_eq!(g.snake_cells(), vec![(6, 5), (5, 5)]);
    assert_eq!(g.snake_heading(), Direction::Right);
    g.key_pressed(Control::Down);
    assert_eq!(g.snake_cells(), vec![(6, 6), (6, 5)]);
    assert_eq!(g.snake_heading(), Direction::Down);
}

#[test]
fn snake_turn_down_step() {
    let mut s = Snake::new(5, 5);
    s.move_forward(Some(Direction::Down));
    assert_eq!(s.head_position(), (6, 6));
    assert_eq!(s.cells_xy(), vec![(6, 6), (6, 5)]);
}

#[test]
fn food_moves_diagonally_inside_margins() {
    let mut g = Game::new(30, 30);
    g.set_food(4, 15, 1, 1);
    g.food_moving();
    assert_eq!(g.food(), Some((5, 16)));
    g.food_moving();
    assert_eq!(g.food(), Some((6, 17)));
    assert!(!g.game_over());
}

#[test]
fn restart_after_game_over_resets_everything() {
    let mut g = Game::new(30, 30);
    for _ in 0..4 {
        g.key_pressed(Control::Up);
    }
    assert_eq!(g.snake_cells()[0], (6, 1));
    assert!(!g.game_over());
    g.key_pressed(Control::Up);
    assert!(g.game_over());
    g.update(RESTART_TIME_US / 2);
    assert!(g.game_over());
    g.update(RESTART_TIME_US);
    assert_eq!(g.score(), 0);
    assert!(!g.game_over());
    assert!(!g.game_win());
    assert_eq!(g.snake_cells(), vec![(3, 2), (2, 2)]);
    assert_eq!(g.food(), Some((10, 10)));
    assert_eq!(g.enemy_cells(), vec![(10, 6)]);
}

#[test]
fn paddle_at_top_does_not_move_up() {
    let mut p = LeftPedal::new();
    assert_eq!(p.head_position(), (0, 1));
    p.move_up();
    assert_eq!(p.head_position(), (0, 1));
    assert_eq!(p.tail_position(), (0, 5));
    assert_eq!(p.cells_xy(), vec![(0, 1), (0, 2), (0, 3), (0, 4), (0, 5)]);
    let mut r = RightPedal::new();
    r.move_up();
    assert_eq!(r.cells_xy(), vec![(29, 1), (29, 2), (29, 3), (29, 4), (29, 5)]);
}

#[test]
fn paddle_moves_down_to_bottom_and_stops() {
    let mut p = RightPedal::new();
    p.move_down();
    assert_eq!(p.head_position(), (29, 2));
    assert_eq!(p.tail_position(), (29, 6));
    for _ in 0..30 {
        p.move_down();
    }
    assert_eq!(p.tail_position(), (29, 28));
    assert_eq!(p.head_position(), (29, 24));
    assert_eq!(p.cells_xy().len(), 5);
    p.move_up();
    assert_eq!(p.head_position(), (29, 23));
    let mut l = LeftPedal::new();
    for _ in 0..30 {
        l.move_down();
    }
    assert_eq!(l.tail_position(), (0, 28));
    assert!(l.cells_xy().iter().all(|c| c.0 == 0));
}

#[test]
fn paddle_block_food_by_row() {
    let p = LeftPedal::new();
    assert!(p.block_food(1));
    assert!(p.block_food(5));
    assert!(!p.block_food(6));
    assert!(!p.block_food(0));
    let r = RightPedal::new();
    assert!(r.block_food(3));
    assert!(!r.block_food(7));
}

#[test]
fn direction_opposites() {
    assert_eq!(Direction::Up.opposite(), Direction::Down);
    assert_eq!(Direction::Down.opposite(), Direction::Up);
    assert_eq!(Direction::Left.opposite(), Direction::Right);
    assert_eq!(Direction::Right.opposite(), Direction::Left);
}

#[test]
fn snake_steps_keep_length() {
    let mut s = Snake::new(5, 5);
    assert_eq!(s.head_direction(), Direction::Right);
    assert_eq!(s.next_head(None), (7, 5));
    assert_eq!(s.next_head(Some(Direction::Up)), (6, 4));
    s.move_forward(None);
    assert_eq!(s.cells_xy(), vec![(7, 5), (6, 5)]);
    s.move_forward(Some(Direction::Up));
    assert_eq!(s.cells_xy(), vec![(7, 4), (7, 5)]);
    assert_eq!(s.head_direction(), Direction::Up);
    s.move_forward(Some(Direction::Left));
    assert_eq!(s.cells_xy(), vec![(6, 4), (7, 4)]);
}

#[test]
fn snake_restore_tail_grows_by_one() {
    let mut s = Snake::new(5, 5);
    s.restore_tail();
    assert_eq!(s.cells_xy().len(), 2);
    s.move_forward(None);
    assert_eq!(s.cells_xy().len(), 2);
    s.restore_tail();
    assert_eq!(s.cells_xy(), vec![(7, 5), (6, 5), (5, 5)]);
}

#[test]
fn snake_overlap_skips_last_cell() {
    let mut s = Snake::new(5, 5);
    s.move_forward(None);
    s.restore_tail();
    assert!(s.overlap_tail(7, 5));
    assert!(s.overlap_tail(6, 5));
    assert!(!s.overlap_tail(5, 5));
    assert!(!s.overlap_tail(8, 5));
}

#[test]
fn enemies_follow_the_table_then_stop() {
    let mut e = Enemy::new();
    assert_eq!(e.cells_xy(), vec![(10, 6)]);
    assert!(e.contact(10, 6));
    assert!(!e.contact(20, 6));
    e.add_enemy();
    assert_eq!(e.cells_xy(), vec![(10, 6), (20, 6)]);
    assert!(e.contact(20, 6));
    for _ in 0..8 {
        e.add_enemy();
    }
    assert_eq!(
        e.cells_xy(),
        vec![
            (10, 6),
            (20, 6),
            (7, 12),
            (15, 12),
            (22, 12),
            (7, 18),
            (15, 18),
            (22, 18),
            (10, 24),
            (20, 24)
        ]
    );
    e.add_enemy();
    assert_eq!(e.cells_xy().len(), 10);
}

#[test]
fn eating_grows_snake_scores_and_adds_enemy() {
    let mut g = Game::new(30, 30);
    assert!(g.place_food(7, 5));
    assert_eq!(g.food(), Some((7, 5)));
    g.update(TICK);
    assert_eq!(g.score(), 1);
    assert_eq!(g.snake_cells(), vec![(7, 5), (6, 5), (5, 5)]);
    assert_eq!(g.food(), None);
    assert_eq!(g.enemy_cells(), vec![(10, 6), (20, 6)]);
    g.update(1);
    let f = g.food().expect("food comes back on the next tick");
    assert!(f.0 >= 5 && f.0 < 25 && f.1 >= 5 && f.1 < 25);
    assert!(!g.snake_cells()[..2].contains(&f));
}

#[test]
fn second_meal_adds_no_enemy() {
    let mut g = Game::new(30, 30);
    assert!(g.place_food(7, 5));
    g.key_pressed(Control::Right);
    assert_eq!(g.score(), 1);
    assert!(g.place_food(8, 5));
    g.key_pressed(Control::Right);
    assert_eq!(g.score(), 2);
    assert_eq!(g.snake_cells().len(), 4);
    assert_eq!(g.enemy_cells().len(), 2);
}

#[test]
fn check_eating_without_food_on_head() {
    let mut g = Game::new(30, 30);
    assert!(!g.check_eating());
    assert_eq!(g.score(), 0);
}

#[test]
fn place_food_refuses_snake_cell() {
    let mut g = Game::new(30, 30);
    assert!(!g.place_food(6, 5));
    assert_eq!(g.food(), Some((3, 3)));
    assert!(g.place_food(5, 5));
    assert_eq!(g.food(), Some((5, 5)));
}

#[test]
fn reverse_key_is_ignored() {
    let mut g = Game::new(30, 30);
    g.key_pressed(Control::Left);
    assert_eq!(g.snake_cells(), vec![(6, 5), (5, 5)]);
    g.key_pressed(Control::Other);
    assert_eq!(g.snake_cells(), vec![(6, 5), (5, 5)]);
}

#[test]
fn paddle_key_moves_paddle_and_steps_snake() {
    let mut g = Game::new(30, 30);
    g.key_pressed(Control::LeftPaddleDown);
    assert_eq!(g.left_pedal_cells()[0], (0, 2));
    assert_eq!(g.snake_cells()[0], (7, 5));
    g.key_pressed(Control::RightPaddleDown);
    g.key_pressed(Control::RightPaddleDown);
    assert_eq!(g.right_pedal_cells()[0], (29, 3));
    g.key_pressed(Control::RightPaddleUp);
    assert_eq!(g.right_pedal_cells()[0], (29, 2));
    g.key_pressed(Control::LeftPaddleUp);
    assert_eq!(g.left_pedal_cells()[0], (0, 1));
    assert_eq!(g.snake_cells()[0], (11, 5));
}

#[test]
fn keys_ignored_after_game_over() {
    let mut g = Game::new(30, 30);
    for _ in 0..5 {
        g.key_pressed(Control::Up);
    }
    assert!(g.game_over());
    let before = g.snake_cells();
    g.key_pressed(Control::Right);
    g.key_pressed(Control::LeftPaddleDown);
    assert_eq!(g.snake_cells(), before);
    assert_eq!(g.left_pedal_cells()[0], (0, 1));
}

#[test]
fn hitting_an_enemy_ends_the_game() {
    let mut g = Game::new(30, 30);
    g.key_pressed(Control::Up);
    for _ in 0..3 {
        g.key_pressed(Control::Right);
    }
    assert_eq!(g.snake_cells()[0], (9, 4));
    g.key_pressed(Control::Down);
    assert_eq!(g.snake_cells()[0], (9, 5));
    g.key_pressed(Control::Right);
    assert_eq!(g.snake_cells()[0], (10, 5));
    assert!(!g.game_over());
    g.key_pressed(Control::Down);
    assert!(g.game_over());
    assert_eq!(g.snake_cells()[0], (10, 5));
}

#[test]
fn update_waits_for_the_moving_period() {
    let mut g = Game::new(30, 30);
    g.update(MOVING_PERIOD_US);
    assert_eq!(g.snake_cells()[0], (6, 5));
    assert_eq!(g.food(), Some((3, 3)));
    g.update(1);
    assert_eq!(g.snake_cells()[0], (7, 5));
    assert_eq!(g.food(), Some((4, 4)));
    g.update(MOVING_PERIOD_US);
    assert_eq!(g.snake_cells()[0], (7, 5));
}

#[test]
fn food_missed_by_left_paddle_ends_game() {
    let mut g = Game::new(30, 30);
    g.set_food(3, 10, -1, 1);
    g.food_moving();
    assert_eq!(g.food(), Some((2, 11)));
    assert!(!g.game_over());
    g.food_moving();
    assert_eq!(g.food(), Some((1, 12)));
    assert!(g.game_over());
}

#[test]
fn food_bounces_off_left_paddle() {
    let mut g = Game::new(30, 30);
    g.set_food(3, 4, -1, -1);
    g.food_moving();
    g.food_moving();
    assert_eq!(g.food(), Some((1, 2)));
    assert!(!g.game_over());
    g.food_moving();
    assert_eq!(g.food(), Some((2, 1)));
    g.food_moving();
    assert_eq!(g.food(), Some((3, 2)));
}

#[test]
fn food_bounces_off_right_paddle_and_floor() {
    let mut g = Game::new(30, 30);
    g.set_food(26, 3, 1, 1);
    g.food_moving();
    assert_eq!(g.food(), Some((27, 4)));
    assert!(!g.game_over());
    g.food_moving();
    assert_eq!(g.food(), Some((28, 5)));
    assert!(!g.game_over());
    g.food_moving();
    assert_eq!(g.food(), Some((27, 6)));
    g.set_food(10, 27, 1, 1);
    g.food_moving();
    assert_eq!(g.food(), Some((11, 28)));
    g.food_moving();
    assert_eq!(g.food(), Some((12, 27)));
}

#[test]
fn food_missed_by_right_paddle_ends_game() {
    let mut g = Game::new(30, 30);
    g.set_food(27, 12, 1, 1);
    g.food_moving();
    assert_eq!(g.food(), Some((28, 13)));
    assert!(g.game_over());
}

#[test]
fn no_win_below_the_winning_score() {
    let mut g = Game::new(30, 30);
    g.update(TICK);
    assert!(!g.game_win());
    assert_eq!(g.width(), 30);
    assert_eq!(g.height(), 30);
}

#[test]
fn respawned_food_lands_in_different_places() {
    let mut seen: Vec<(i32, i32)> = Vec::new();
    for _ in 0..30 {
        let mut g = Game::new(30, 30);
        assert!(g.place_food(7, 5));
        g.update(TICK);
        assert_eq!(g.food(), None);
        g.update(1);
        let f = g.food().expect("food is placed again");
        assert!(f.0 >= 5 && f.0 < 25 && f.1 >= 5 && f.1 < 25);
        if !seen.contains(&f) {
            seen.push(f);
        }
    }
    assert!(seen.len() > 1);
}
