use snake::{direction_for_key, Direction, Error, Grid, Outcome, Point, Snake, Status};
use std::collections::VecDeque;

fn grid5() -> Grid {
    Grid { width: 5, height: 5, inset: 0 }
}

fn game(body: &[(u16, u16)], direction: Direction, food: (u16, u16)) -> Snake {
    let body: VecDeque<Point> = body.iter().map(|&(x, y)| Point(x, y)).collect();
    Snake::with_state(grid5(), body, direction, Point(food.0, food.1)).expect("valid position")
}

fn body_of(s: &Snake) -> Vec<(u16, u16)> {
    s.body().iter().map(|p| (p.0, p.1)).collect()
}

#[test]
fn eating_food_grows_and_scores() {
    let mut s = game(&[(2, 2), (2, 1), (2, 0)], Direction::South, (2, 3));
    assert_eq!(s.step(), Outcome::AteFood);
    assert_eq!(body_of(&s), vec![(2, 3), (2, 2), (2, 1), (2, 0)]);
    assert_eq!(s.score(), 1);
    assert!(!s.body().contains(&s.food()));
    assert!(s.grid().width > s.food().0 && s.grid().height > s.food().1);
    assert!(s.is_alive());
}

#[test]
fn leaving_the_bottom_edge_kills() {
    let mut s = game(&[(2, 4), (2, 3), (2, 2)], Direction::South, (0, 0));
    assert_eq!(s.step(), Outcome::Died);
    assert_eq!(s.status(), Status::Dead);
    assert_eq!(s.step(), Outcome::Died);
    assert_eq!(body_of(&s), vec![(2, 4), (2, 3), (2, 2)]);
    s.turn(Direction::East);
    assert_eq!(s.direction(), Direction::South);
}

#[test]
fn leaving_the_top_and_left_edges_kills() {
    let mut s = game(&[(2, 0), (2, 1)], Direction::North, (4, 4));
    assert_eq!(s.step(), Outcome::Died);
    let mut s = game(&[(0, 2), (1, 2)], Direction::West, (4, 4));
    assert_eq!(s.step(), Outcome::Died);
}

#[test]
fn moving_onto_the_body_kills() {
    let mut s = game(&[(1, 1), (2, 1), (2, 2), (1, 2), (0, 2)], Direction::South, (4, 4));
    assert_eq!(s.step(), Outcome::Died);
    assert!(!s.is_alive());
    assert_eq!(s.score(), 0);
}

#[test]
fn moving_onto_the_tail_kills() {
    let mut s = game(&[(1, 1), (2, 1), (2, 2), (1, 2)], Direction::South, (4, 4));
    assert_eq!(s.step(), Outcome::Died);
}

#[test]
fn plain_move_keeps_length() {
    let mut s = game(&[(2, 2), (2, 1), (2, 0)], Direction::East, (0, 4));
    assert_eq!(s.step(), Outcome::Continued);
    assert_eq!(body_of(&s), vec![(3, 2), (2, 2), (2, 1)]);
    assert_eq!(s.score(), 0);
    assert_eq!(s.food(), Point(0, 4));
}

#[test]
fn reversal_is_rejected() {
    let mut s = game(&[(2, 2), (2, 1), (2, 0)], Direction::South, (0, 4));
    s.turn(Direction::North);
    assert_eq!(s.direction(), Direction::South);
    s.turn(Direction::East);
    s.turn(Direction::West);
    assert_eq!(s.direction(), Direction::East);
    assert_eq!(s.step(), Outcome::Continued);
    assert_eq!(body_of(&s)[0], (3, 2));
}

#[test]
fn last_turn_wins() {
    let mut s = game(&[(2, 2), (2, 1), (2, 0)], Direction::South, (0, 4));
    s.turn(Direction::East);
    s.turn(Direction::South);
    assert_eq!(s.direction(), Direction::South);
    assert_eq!(s.step(), Outcome::Continued);
    assert_eq!(body_of(&s)[0], (2, 3));
}

#[test]
fn filling_the_board_wins() {
    let grid = Grid { width: 2, height: 2, inset: 0 };
    let body: VecDeque<Point> = vec![Point(0, 0), Point(1, 0), Point(1, 1)].into_iter().collect();
    let mut s = Snake::with_state(grid, body, Direction::South, Point(0, 1)).unwrap();
    assert_eq!(s.step(), Outcome::Won);
    assert_eq!(s.status(), Status::Won);
    assert_eq!(s.score(), 1);
    assert_eq!(s.body().len(), 4);
    assert_eq!(s.step(), Outcome::Won);
    assert!(!s.gen_food());
}

#[test]
fn with_state_rejects_bad_positions() {
    let g = grid5();
    let mk = |v: Vec<(u16, u16)>| v.into_iter().map(|(x, y)| Point(x, y)).collect::<VecDeque<_>>();
    assert!(Snake::with_state(g, mk(vec![]), Direction::South, Point(0, 0)).is_none());
    assert!(Snake::with_state(g, mk(vec![(1, 1), (1, 1)]), Direction::South, Point(0, 0)).is_none());
    assert!(Snake::with_state(g, mk(vec![(1, 1), (5, 1)]), Direction::South, Point(0, 0)).is_none());
    assert!(Snake::with_state(g, mk(vec![(1, 1)]), Direction::South, Point(1, 1)).is_none());
    assert!(Snake::with_state(g, mk(vec![(1, 1)]), Direction::South, Point(0, 5)).is_none());
    assert!(Snake::with_state(g, mk(vec![(1, 1), (1, 2)]), Direction::South, Point(0, 0)).is_some());
}

#[test]
fn new_game_layout() {
    let g = Grid { width: 20, height: 20, inset: 2 };
    let s = Snake::new(g).unwrap();
    assert_eq!(body_of(&s), vec![(5, 2), (4, 2), (3, 2), (2, 2)]);
    assert_eq!(s.direction(), Direction::South);
    assert_eq!(s.score(), 0);
    assert!(s.is_alive());
    let f = s.food();
    assert!(f.0 >= 2 && f.0 < 20 && f.1 >= 2 && f.1 < 20);
    assert!(!s.body().contains(&f));
    assert!(Snake::new(Grid { width: 5, height: 3, inset: 2 }).is_none());
    assert!(Snake::new(Grid { width: 4, height: 3, inset: 1 }).is_none());
    assert!(Snake::new(Grid { width: 6, height: 2, inset: 1 }).is_none());
    assert!(Snake::new(Grid { width: 5, height: 3, inset: 1 }).is_some());
}

#[test]
fn new_game_on_smallest_field_places_food_on_the_only_free_row() {
    let s = Snake::new(Grid { width: 4, height: 2, inset: 0 }).unwrap();
    assert_eq!(s.food().1, 1);
}

#[test]
fn gen_food_avoids_the_body() {
    let mut s = game(&[(0, 0), (1, 0), (2, 0), (3, 0), (4, 0)], Direction::South, (0, 1));
    for _ in 0..200 {
        assert!(s.gen_food());
        let f = s.food();
        assert!(f.1 >= 1 && f.1 < 5 && f.0 < 5);
    }
}

#[test]
fn free_cells_lists_uncovered_cells() {
    let s = game(&[(0, 0), (1, 0)], Direction::South, (4, 4));
    let free = s.free_cells();
    assert_eq!(free.len(), 23);
    assert!(!free.contains(&Point(0, 0)));
    assert!(!free.contains(&Point(1, 0)));
    assert!(free.contains(&Point(2, 0)));
    assert!(free.contains(&Point(4, 4)));
}

#[test]
fn contains_and_next() {
    let s = game(&[(2, 2), (2, 1)], Direction::West, (4, 4));
    assert!(s.contains(&Point(2, 1)));
    assert!(!s.contains(&Point(1, 2)));
    assert_eq!(s.next(), Ok(Point(1, 2)));
    let edge = game(&[(4, 2), (3, 2)], Direction::East, (0, 0));
    assert_eq!(edge.next(), Err(Error::OutOfBounds));
}

#[test]
fn offsets_and_opposites() {
    assert_eq!(Direction::North.get_offset(), (0, -1));
    assert_eq!(Direction::South.get_offset(), (0, 1));
    assert_eq!(Direction::East.get_offset(), (1, 0));
    assert_eq!(Direction::West.get_offset(), (-1, 0));
    assert_eq!(Direction::North.get_opposite(), Direction::South);
    assert_eq!(Direction::South.get_opposite(), Direction::North);
    assert_eq!(Direction::East.get_opposite(), Direction::West);
    assert_eq!(Direction::West.get_opposite(), Direction::East);
}

#[test]
fn point_bounds_with_inset() {
    let g = Grid { width: 10, height: 8, inset: 1 };
    assert_eq!(Point::new(1, 1, &g), Ok(Point(1, 1)));
    assert_eq!(Point::new(9, 7, &g), Ok(Point(9, 7)));
    assert_eq!(Point::new(0, 3, &g), Err(Error::OutOfBounds));
    assert_eq!(Point::new(3, 0, &g), Err(Error::OutOfBounds));
    assert_eq!(Point::new(10, 3, &g), Err(Error::OutOfBounds));
    assert_eq!(Point::new(3, 8, &g), Err(Error::OutOfBounds));
    assert_eq!(Point::new(-1, 3, &g), Err(Error::OutOfBounds));
    assert!(g.is_in_bounds(5, 5));
    assert!(!g.is_in_bounds(5, -5));
}

#[test]
fn screen_coordinates_double_the_column() {
    assert_eq!(Point(7, 3).to_screen_coord(), (14, 3));
    assert_eq!(Point(65535, 1).to_screen_coord(), (131070, 1));
}

#[test]
fn keys_map_to_directions() {
    assert_eq!(direction_for_key(b'j'), Some(Direction::South));
    assert_eq!(direction_for_key(b's'), Some(Direction::South));
    assert_eq!(direction_for_key(b'k'), Some(Direction::North));
    assert_eq!(direction_for_key(b'w'), Some(Direction::North));
    assert_eq!(direction_for_key(b'h'), Some(Direction::West));
    assert_eq!(direction_for_key(b'a'), Some(Direction::West));
    assert_eq!(direction_for_key(b'l'), Some(Direction::East));
    assert_eq!(direction_for_key(b'd'), Some(Direction::East));
    assert_eq!(direction_for_key(b'x'), None);
}

#[test]
fn ticks_move_the_head_one_cell_and_keep_the_body_distinct() {
    let mut s = game(&[(1, 1), (0, 1)], Direction::East, (3, 1));
    let turns = [None, None, Some(Direction::South), None, Some(Direction::West), None];
    for t in turns {
        if let Some(d) = t {
            s.turn(d);
        }
        let (hx, hy) = (s.body()[0].0 as i32, s.body()[0].1 as i32);
        let (dx, dy) = s.direction().get_offset();
        let before = s.body().len();
        let score = s.score();
        let o = s.step();
        assert!(o == Outcome::Continued || o == Outcome::AteFood);
        assert_eq!((s.body()[0].0 as i32, s.body()[0].1 as i32), (hx + dx, hy + dy));
        let cells = body_of(&s);
        for (i, a) in cells.iter().enumerate() {
            assert!(!cells[i + 1..].contains(a));
        }
        if o == Outcome::AteFood {
            assert_eq!((s.body().len(), s.score()), (before + 1, score + 1));
        } else {
            assert_eq!((s.body().len(), s.score()), (before, score));
        }
    }
}
