use snake_core::direction::Direction;
use snake_core::game::Game;
use snake_core::game::GameState;
use snake_core::grid::GridPos;
use snake_core::snake::Snake;

fn occupied(g: &Game, c: GridPos) -> bool {
    c == g.snake.head || g.snake.segments.contains(&c)
}

#[test]
fn four_ticks_right_leaves_a_contiguous_trail() {
    let mut g = Game::new();
    // Park the food far from the snake's path so no tick grows the body.
    g.food = Some(GridPos::new(0, 0));
    for _ in 0..4 {
        g.step();
        assert_eq!(g.snake.segments.len(), 4);
        assert_eq!(g.state, GameState::InGame);
    }
    assert_eq!(g.snake.head, GridPos::new(24, 11));
    assert_eq!(
        g.snake.segments,
        vec![
            GridPos::new(20, 11),
            GridPos::new(21, 11),
            GridPos::new(22, 11),
            GridPos::new(23, 11),
        ]
    );
}

#[test]
fn head_advances_linearly_without_input() {
    let mut g = Game::new();
    g.food = Some(GridPos::new(0, 0));
    for n in 1..=10 {
        g.step();
        assert_eq!(g.snake.head, GridPos::new(20 + n, 11));
    }
}

#[test]
fn eating_grows_the_body_and_respawns_food() {
    let mut g = Game::new();
    g.food = Some(GridPos::new(21, 11));
    g.step();
    assert_eq!(g.snake.head, GridPos::new(21, 11));
    assert_eq!(g.snake.segments.len(), 5);
    assert_eq!(g.state, GameState::InGame);
    let f = g.food.expect("food respawns within the same tick");
    assert_ne!(f, GridPos::new(21, 11));
    assert!(!occupied(&g, f));
    // The tick after eating holds the new length.
    g.food = Some(GridPos::new(0, 0));
    g.step();
    assert_eq!(g.snake.segments.len(), 5);
}

#[test]
fn first_tick_places_food_on_a_free_cell() {
    let mut g = Game::new();
    assert_eq!(g.food, None);
    g.step();
    let f = g.food.expect("the first tick places food");
    assert!(0 <= f.x && f.x < 40 && 0 <= f.y && f.y < 22);
    assert!(!occupied(&g, f));
}

#[test]
fn self_collision_ends_the_game_and_freezes_it() {
    let mut g = Game {
        snake: Snake {
            facing: Direction::Right,
            pending_facing: Direction::Right,
            head: GridPos::new(10, 10),
            segments: vec![
                GridPos::new(9, 10),
                GridPos::new(11, 10),
                GridPos::new(12, 10),
                GridPos::new(11, 11),
            ],
        },
        food: Some(GridPos::new(0, 0)),
        state: GameState::InGame,
    };
    g.step();
    assert_eq!(g.state, GameState::GameOver);
    assert_eq!(g.snake.head, GridPos::new(11, 10));
    let head = g.snake.head;
    let segments = g.snake.segments.clone();
    let food = g.food;
    for _ in 0..3 {
        g.step();
        assert_eq!(g.snake.head, head);
        assert_eq!(g.snake.segments, segments);
        assert_eq!(g.food, food);
        assert_eq!(g.state, GameState::GameOver);
    }
}

#[test]
fn no_segment_shares_the_head_cell_while_in_game() {
    let mut g = Game::new();
    g.food = Some(GridPos::new(20, 5));
    for _ in 0..40 {
        g.snake.buffer_input(Direction::Up);
        g.step();
        if g.state == GameState::InGame {
            assert!(!g.snake.segments.contains(&g.snake.head));
        }
    }
}

#[test]
fn moving_off_the_board_ends_the_game() {
    let mut g = Game {
        snake: Snake {
            facing: Direction::Right,
            pending_facing: Direction::Right,
            head: GridPos::new(39, 11),
            segments: vec![GridPos::new(38, 11)],
        },
        food: Some(GridPos::new(0, 0)),
        state: GameState::InGame,
    };
    g.step();
    assert_eq!(g.state, GameState::GameOver);
    assert_eq!(g.snake.head, GridPos::new(39, 11));
    assert_eq!(g.snake.segments, vec![GridPos::new(38, 11)]);
}

#[test]
fn render_projection_follows_the_history() {
    let mut g = Game::new();
    g.food = Some(GridPos::new(0, 0));
    for _ in 0..4 {
        g.step();
    }
    let rendered = g.snake.render_positions();
    assert_eq!(rendered.len(), g.snake.segments.len());
    for (i, p) in g.snake.segments.iter().enumerate() {
        assert_eq!(rendered[i], p.to_translation());
    }
    assert_eq!(rendered[0], GridPos::new(20, 11).to_translation());
}
