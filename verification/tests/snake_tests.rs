use snake::snake::{Direction, Snake};

#[test]
fn opposite_of_each_direction() {
    assert_eq!(Direction::Up.opposite(), Direction::Down);
    assert_eq!(Direction::Down.opposite(), Direction::Up);
    assert_eq!(Direction::Left.opposite(), Direction::Right);
    assert_eq!(Direction::Right.opposite(), Direction::Left);
}

#[test]
fn opposite_twice_is_identity() {
    for d in [Direction::Up, Direction::Down, Direction::Left, Direction::Right] {
        assert_eq!(d.opposite().opposite(), d);
        assert_ne!(d.opposite(), d);
    }
}

#[test]
fn new_snake_has_three_cells_and_head_on_the_right() {
    let snake = Snake::new(2, 2);
    assert_eq!(snake.head_position(), (4, 2));
    assert_eq!(snake.draw(), vec![(4, 2), (3, 2), (2, 2)]);
    assert_eq!(snake.draw().len(), 3);
    assert_eq!(snake.head_direction(), Direction::Right);
}

#[test]
fn new_snake_at_negative_origin() {
    let snake = Snake::new(-7, -3);
    assert_eq!(snake.head_position(), (-5, -3));
    assert_eq!(snake.draw(), vec![(-5, -3), (-6, -3), (-7, -3)]);
}

#[test]
fn new_snake_at_the_largest_origin() {
    let snake = Snake::new(i32::MAX - 2, i32::MIN);
    assert_eq!(snake.head_position(), (i32::MAX, i32::MIN));
    assert_eq!(
        snake.draw(),
        vec![(i32::MAX, i32::MIN), (i32::MAX - 1, i32::MIN), (i32::MAX - 2, i32::MIN)]
    );
}

#[test]
fn next_head_follows_each_direction() {
    let mut snake = Snake::new(10, 20);
    assert_eq!(snake.next_head(Some(Direction::Up)), (12, 19));
    assert_eq!(snake.next_head(Some(Direction::Down)), (12, 21));
    assert_eq!(snake.next_head(Some(Direction::Left)), (11, 20));
    assert_eq!(snake.next_head(Some(Direction::Right)), (13, 20));
}

#[test]
fn next_head_without_direction_uses_the_heading() {
    let mut snake = Snake::new(10, 20);
    assert_eq!(snake.next_head(None), (13, 20));
    snake.move_forward(Some(Direction::Down));
    assert_eq!(snake.next_head(None), (12, 22));
}

#[test]
fn next_head_leaves_the_snake_as_it_is() {
    let mut snake = Snake::new(0, 0);
    let before = snake.draw();
    let _ = snake.next_head(Some(Direction::Up));
    let _ = snake.next_head(None);
    assert_eq!(snake.draw(), before);
    assert_eq!(snake.head_direction(), Direction::Right);
    assert_eq!(snake.head_position(), (2, 0));
}

#[test]
fn move_forward_keeps_the_length() {
    let mut snake = Snake::new(5, 5);
    snake.move_forward(None);
    assert_eq!(snake.draw().len(), 3);
    snake.move_forward(Some(Direction::Down));
    assert_eq!(snake.draw().len(), 3);
    snake.move_forward(Some(Direction::Left));
    assert_eq!(snake.draw().len(), 3);
    snake.move_forward(None);
    assert_eq!(snake.draw().len(), 3);
}

#[test]
fn move_forward_shifts_the_body() {
    let mut snake = Snake::new(5, 5);
    snake.move_forward(None);
    assert_eq!(snake.draw(), vec![(8, 5), (7, 5), (6, 5)]);
    snake.move_forward(Some(Direction::Down));
    assert_eq!(snake.draw(), vec![(8, 6), (8, 5), (7, 5)]);
    snake.move_forward(Some(Direction::Left));
    assert_eq!(snake.draw(), vec![(7, 6), (8, 6), (8, 5)]);
    snake.move_forward(Some(Direction::Up));
    assert_eq!(snake.draw(), vec![(7, 5), (7, 6), (8, 6)]);
}

#[test]
fn move_forward_sets_the_heading_only_when_one_is_given() {
    let mut snake = Snake::new(5, 5);
    snake.move_forward(None);
    assert_eq!(snake.head_direction(), Direction::Right);
    snake.move_forward(Some(Direction::Up));
    assert_eq!(snake.head_direction(), Direction::Up);
    snake.move_forward(None);
    assert_eq!(snake.head_direction(), Direction::Up);
    assert_eq!(snake.head_position(), (8, 3));
}

#[test]
fn move_forward_then_restore_tail_adds_one_cell() {
    let mut snake = Snake::new(5, 5);
    snake.move_forward(None);
    snake.restore_tail();
    assert_eq!(snake.draw().len(), 4);
    assert_eq!(snake.draw(), vec![(8, 5), (7, 5), (6, 5), (5, 5)]);
    snake.move_forward(Some(Direction::Down));
    assert_eq!(snake.draw().len(), 4);
    snake.restore_tail();
    assert_eq!(snake.draw().len(), 5);
    assert_eq!(snake.draw(), vec![(8, 6), (8, 5), (7, 5), (6, 5), (5, 5)]);
}

#[test]
fn overlap_tail_on_a_fresh_snake() {
    let snake = Snake::new(3, 9);
    assert!(snake.overlap_tail(5, 9));
    assert!(snake.overlap_tail(4, 9));
    assert!(!snake.overlap_tail(3, 9));
}

#[test]
fn overlap_tail_is_false_off_the_body() {
    let snake = Snake::new(3, 9);
    assert!(!snake.overlap_tail(6, 9));
    assert!(!snake.overlap_tail(2, 9));
    assert!(!snake.overlap_tail(5, 8));
    assert!(!snake.overlap_tail(5, 10));
    assert!(!snake.overlap_tail(9, 5));
}

#[test]
fn overlap_tail_leaves_out_only_the_last_cell() {
    let mut snake = Snake::new(0, 0);
    snake.move_forward(None);
    snake.restore_tail();
    assert_eq!(snake.draw(), vec![(3, 0), (2, 0), (1, 0), (0, 0)]);
    assert!(snake.overlap_tail(3, 0));
    assert!(snake.overlap_tail(2, 0));
    assert!(snake.overlap_tail(1, 0));
    assert!(!snake.overlap_tail(0, 0));
}

#[test]
fn overlap_tail_follows_the_moving_body() {
    let mut snake = Snake::new(0, 0);
    snake.move_forward(Some(Direction::Down));
    assert_eq!(snake.draw(), vec![(2, 1), (2, 0), (1, 0)]);
    assert!(snake.overlap_tail(2, 1));
    assert!(snake.overlap_tail(2, 0));
    assert!(!snake.overlap_tail(1, 0));
    assert!(!snake.overlap_tail(0, 0));
}

#[test]
fn move_forward_reaches_the_edge_of_the_coordinates() {
    let mut snake = Snake::new(i32::MAX - 3, i32::MIN + 1);
    snake.move_forward(None);
    assert_eq!(snake.head_position(), (i32::MAX, i32::MIN + 1));
    snake.move_forward(Some(Direction::Up));
    assert_eq!(snake.head_position(), (i32::MAX, i32::MIN));
}
