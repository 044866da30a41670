use snake::{cells_across, random_food_position, Arrow, Direction, Game, GameState, KeyPresses, Position, Snake, CELL};

const ALL: [Direction; 5] = [Direction::NONE, Direction::UP, Direction::DOWN, Direction::LEFT, Direction::RIGHT];
const ARROWS: [Arrow; 4] = [Arrow::Left, Arrow::Right, Arrow::Up, Arrow::Down];

fn snake_at(head: (i64, i64), direction: Direction, segs: &[(i64, i64)]) -> Snake {
    Snake {
        head: Position::new(head.0, head.1),
        direction,
        segments: segs.iter().map(|&(x, y)| Position::new(x, y)).collect(),
    }
}

fn positions(s: &Snake) -> Vec<(i64, i64)> {
    s.segments.iter().map(|p| (p.x, p.y)).collect()
}

#[test]
fn reverse_key_is_ignored_for_every_direction() {
    for d in ALL {
        for a in ARROWS {
            if a.heading() == d.opposite() && d != Direction::NONE {
                assert_eq!(d.turn(a), d);
                assert_eq!(d.steer(KeyPresses::only(a)), d);
            }
        }
    }
    assert_eq!(Direction::UP.turn(Arrow::Down), Direction::UP);
    assert_eq!(Direction::DOWN.turn(Arrow::Up), Direction::DOWN);
    assert_eq!(Direction::LEFT.turn(Arrow::Right), Direction::LEFT);
    assert_eq!(Direction::RIGHT.turn(Arrow::Left), Direction::RIGHT);
}

#[test]
fn non_reverse_key_is_taken() {
    assert_eq!(Direction::NONE.turn(Arrow::Left), Direction::LEFT);
    assert_eq!(Direction::NONE.turn(Arrow::Down), Direction::DOWN);
    assert_eq!(Direction::UP.turn(Arrow::Left), Direction::LEFT);
    assert_eq!(Direction::UP.turn(Arrow::Up), Direction::UP);
    assert_eq!(Direction::RIGHT.turn(Arrow::Down), Direction::DOWN);
}

#[test]
fn several_keys_in_one_frame_are_taken_in_order() {
    let keys = KeyPresses { left: true, right: false, up: true, down: false };
    assert_eq!(Direction::NONE.steer(keys), Direction::UP);
    let keys = KeyPresses { left: true, right: true, up: false, down: false };
    assert_eq!(Direction::NONE.steer(keys), Direction::LEFT);
    assert_eq!(Direction::UP.steer(KeyPresses::none()), Direction::UP);
}

#[test]
fn handle_input_changes_only_direction() {
    let mut s = snake_at((400, 300), Direction::UP, &[(400, 280)]);
    s.handle_input(KeyPresses::only(Arrow::Down));
    assert_eq!(s.direction, Direction::UP);
    s.handle_input(KeyPresses::only(Arrow::Right));
    assert_eq!(s.direction, Direction::RIGHT);
    assert_eq!((s.head.x, s.head.y), (400, 300));
    assert_eq!(positions(&s), vec![(400, 280)]);
}

#[test]
fn spawn_in_800_by_600() {
    let s = Snake::spawn(800, 600);
    assert_eq!((s.head.x, s.head.y), (400, 300));
    assert_eq!(s.direction, Direction::NONE);
    assert_eq!(positions(&s), vec![(400, 280), (400, 260)]);
    assert_eq!(s.len(), 2);
}

#[test]
fn one_tick_right_scenario() {
    let mut s = Snake::spawn(800, 600);
    s.handle_input(KeyPresses::only(Arrow::Right));
    s.move_snake();
    assert_eq!((s.head.x, s.head.y), (420, 300));
    assert_eq!(positions(&s), vec![(400, 300), (400, 280)]);
}

#[test]
fn n_ticks_move_head_n_cells() {
    let steps = [(Direction::UP, (0, 20)), (Direction::DOWN, (0, -20)), (Direction::LEFT, (-20, 0)), (Direction::RIGHT, (20, 0))];
    for (d, (sx, sy)) in steps {
        let mut s = snake_at((100, 60), d, &[]);
        for _ in 0..7 {
            s.move_snake();
        }
        assert_eq!((s.head.x, s.head.y), (100 + 7 * sx, 60 + 7 * sy));
    }
}

#[test]
fn head_can_leave_the_window() {
    let mut s = snake_at((0, 0), Direction::LEFT, &[]);
    s.move_snake();
    s.move_snake();
    assert_eq!((s.head.x, s.head.y), (-40, 0));
}

#[test]
fn segments_follow_leader_in_long_chain() {
    let mut s = snake_at((100, 100), Direction::DOWN, &[(100, 120), (100, 140), (120, 140), (140, 140)]);
    s.move_snake();
    assert_eq!((s.head.x, s.head.y), (100, 80));
    assert_eq!(positions(&s), vec![(100, 100), (100, 120), (100, 140), (120, 140)]);
    s.move_snake();
    assert_eq!(positions(&s), vec![(100, 80), (100, 100), (100, 120), (100, 140)]);
}

#[test]
fn no_direction_means_no_movement() {
    let mut s = snake_at((400, 300), Direction::NONE, &[(400, 280), (400, 260)]);
    s.move_snake();
    assert_eq!((s.head.x, s.head.y), (400, 300));
    assert_eq!(positions(&s), vec![(400, 280), (400, 260)]);
}

#[test]
fn can_move_refuses_overflow() {
    let s = snake_at((i64::MAX - 10, 0), Direction::RIGHT, &[]);
    assert!(!s.can_move());
    let s = snake_at((i64::MAX - 20, 0), Direction::RIGHT, &[]);
    assert!(s.can_move());
    let s = snake_at((0, i64::MIN + 5), Direction::DOWN, &[]);
    assert!(!s.can_move());
    let s = snake_at((i64::MAX, i64::MAX), Direction::NONE, &[]);
    assert!(s.can_move());
}

#[test]
fn cells_and_cell_positions() {
    assert_eq!(CELL, 20);
    assert_eq!(cells_across(800), 40);
    assert_eq!(cells_across(600), 30);
    assert_eq!(cells_across(39), 1);
    let p = Position::of_cell(3, 4);
    assert_eq!((p.x, p.y), (60, 80));
    assert_eq!(Position::new(5, 7).step(Direction::UP), Position::new(5, 27));
}

#[test]
fn food_lands_on_a_cell_inside_the_window() {
    for _ in 0..2000 {
        let p = random_food_position(800, 600);
        assert!(0 <= p.x && p.x < 800 && 0 <= p.y && p.y < 600);
        assert_eq!(p.x % 20, 0);
        assert_eq!(p.y % 20, 0);
    }
    for _ in 0..200 {
        let p = random_food_position(39, 20);
        assert_eq!((p.x, p.y), (0, 0));
    }
}

#[test]
fn food_positions_vary() {
    let first = random_food_position(800, 600);
    let differs = (0..200).any(|_| random_food_position(800, 600) != first);
    assert!(differs);
}

#[test]
fn eating_relocates_food_and_grows_by_one() {
    let mut g = Game {
        snake: snake_at((200, 200), Direction::RIGHT, &[(180, 200), (160, 200)]),
        food: Position::new(200, 200),
        width: 800,
        height: 600,
    };
    assert!(g.food_reached());
    g.eat_food(Position::new(40, 60));
    assert_eq!(g.food, Position::new(40, 60));
    assert_eq!(positions(&g.snake), vec![(180, 200), (160, 200), (200, 200)]);
    assert_eq!((g.snake.head.x, g.snake.head.y), (200, 200));
}

#[test]
fn no_food_under_head_changes_nothing() {
    let mut g = Game {
        snake: snake_at((200, 200), Direction::RIGHT, &[(180, 200)]),
        food: Position::new(220, 200),
        width: 800,
        height: 600,
    };
    assert!(!g.food_reached());
    g.eat_food(Position::new(40, 60));
    g.handle_food_eaten();
    assert_eq!(g.food, Position::new(220, 200));
    assert_eq!(positions(&g.snake), vec![(180, 200)]);
}

#[test]
fn handle_food_eaten_draws_a_cell() {
    let mut g = Game {
        snake: snake_at((200, 200), Direction::UP, &[(200, 180)]),
        food: Position::new(200, 200),
        width: 800,
        height: 600,
    };
    g.handle_food_eaten();
    assert!(0 <= g.food.x && g.food.x < 800 && g.food.x % 20 == 0);
    assert!(0 <= g.food.y && g.food.y < 600 && g.food.y % 20 == 0);
    assert_eq!(positions(&g.snake), vec![(200, 180), (200, 200)]);
}

#[test]
fn start_places_snake_and_food() {
    let g = Game::start(800, 600);
    assert_eq!((g.width, g.height), (800, 600));
    assert_eq!((g.snake.head.x, g.snake.head.y), (400, 300));
    assert_eq!(positions(&g.snake), vec![(400, 280), (400, 260)]);
    assert!(0 <= g.food.x && g.food.x < 800 && g.food.x % 20 == 0);
    assert!(0 <= g.food.y && g.food.y < 600 && g.food.y % 20 == 0);
}

#[test]
fn update_steers_moves_and_eats() {
    let mut g = Game {
        snake: snake_at((400, 300), Direction::NONE, &[(400, 280), (400, 260)]),
        food: Position::new(420, 300),
        width: 800,
        height: 600,
    };
    let keys = KeyPresses::only(Arrow::Right);
    assert!(g.can_update(keys));
    g.update(keys);
    assert_eq!(g.snake.direction, Direction::RIGHT);
    assert_eq!((g.snake.head.x, g.snake.head.y), (420, 300));
    assert_eq!(positions(&g.snake), vec![(400, 300), (400, 280), (420, 300)]);
    assert!(g.food.x % 20 == 0 && g.food.y % 20 == 0);
    g.update(KeyPresses::only(Arrow::Left));
    assert_eq!(g.snake.direction, Direction::RIGHT);
    assert_eq!((g.snake.head.x, g.snake.head.y), (440, 300));
    assert_eq!(g.snake.len(), 3);
}

#[test]
fn menu_state_machine() {
    let s = GameState::initial();
    assert_eq!(s, GameState::MainMenu);
    assert!(s.shows_menu());
    assert!(!s.is_playing());
    assert_eq!(s.on_start_key(false), GameState::MainMenu);
    let p = s.on_start_key(true);
    assert_eq!(p, GameState::Playing);
    assert!(p.is_playing());
    assert_eq!(p.on_start_key(true), GameState::Playing);
    assert_eq!(GameState::GameOver.on_start_key(true), GameState::GameOver);
}
