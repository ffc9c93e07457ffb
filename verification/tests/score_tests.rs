use dungeon_crawler::components::Health;
use dungeon_crawler::geometry::Point;
use dungeon_crawler::map::{map_idx, GameMap, TileType};
use dungeon_crawler::systems::end_turn::{
    end_turn, parse_scores, score_handle, scores_to_text, sort_descending, vec_max, vec_contains, TurnEvent, TurnState,
};

#[test]
fn parse_reads_digits_of_each_line() {
    let text = b"100\n50\nabc\n\n7x3\n99999999999\n2147483647\n12";
    assert_eq!(parse_scores(text), vec![100, 50, 73, 2147483647, 12]);
    assert_eq!(parse_scores(b""), Vec::<i32>::new());
    assert_eq!(parse_scores(b"-5\n"), vec![5]);
    assert_eq!(parse_scores(b"007\r\n"), vec![7]);
}

#[test]
fn vec_max_values() {
    assert_eq!(vec_max(&vec![]), Some(0));
    assert_eq!(vec_max(&vec![-3, -7]), Some(-3));
    assert_eq!(vec_max(&vec![4, 9, 2]), Some(9));
    assert!(vec_contains(&vec![4, 9], 9));
    assert!(!vec_contains(&vec![4, 9], 5));
}

#[test]
fn sorting_is_descending() {
    assert_eq!(sort_descending(&vec![3, 10, 3, -1, 7]), vec![10, 7, 3, 3, -1]);
    assert_eq!(sort_descending(&vec![]), Vec::<i32>::new());
}

#[test]
fn scores_text_format() {
    assert_eq!(scores_to_text(&vec![120, 0, -5]), b"120\n0\n-5\n".to_vec());
    assert_eq!(scores_to_text(&vec![i32::MIN]), b"-2147483648\n".to_vec());
}

#[test]
fn score_file_roundtrip() {
    let table = vec![2147483647, 300, 0, 45];
    assert_eq!(parse_scores(&scores_to_text(&table)), table);
}

#[test]
fn new_high_score() {
    let u = score_handle(b"100\n50\n", 120);
    assert_eq!(u.final_score, 120);
    assert_eq!(u.message, "New High Score!!!");
    assert_eq!(u.scores, vec![120, 100, 50]);
    assert_eq!(u.file_text, b"120\n100\n50\n".to_vec());
}

#[test]
fn duplicate_score_not_logged_twice() {
    let u = score_handle(b"100\n50\n", 50);
    assert_eq!(u.message, "");
    assert_eq!(u.scores, vec![100, 50]);
    let v = score_handle(b"", 0);
    assert_eq!(v.message, "");
    assert_eq!(v.scores, vec![0]);
    let w = score_handle(b"", 3);
    assert_eq!(w.message, "New High Score!!!");
}

fn map_with_exit_at(x: i32, y: i32) -> GameMap {
    let mut m = GameMap::new();
    m.tiles[map_idx(x, y)] = TileType::Exit;
    m
}

#[test]
fn turn_cycle() {
    let m = map_with_exit_at(0, 0);
    let players = vec![(Health { current: 5, max: 15 }, Point::new(3, 3))];
    let none = Point::new(-1, -1);
    assert_eq!(end_turn(TurnState::PlayerTurn, &players, none, &m), (TurnState::MonsterTurn, vec![]));
    assert_eq!(end_turn(TurnState::MonsterTurn, &players, none, &m), (TurnState::AwaitingInput, vec![]));
    assert_eq!(end_turn(TurnState::AwaitingInput, &players, none, &m), (TurnState::AwaitingInput, vec![]));
    assert_eq!(end_turn(TurnState::Intro, &players, none, &m), (TurnState::Intro, vec![]));
}

#[test]
fn death_victory_and_exit() {
    let m = map_with_exit_at(3, 3);
    let dead = vec![(Health { current: 0, max: 15 }, Point::new(4, 4))];
    assert_eq!(
        end_turn(TurnState::PlayerTurn, &dead, Point::new(-1, -1), &m),
        (TurnState::GameOver, vec![TurnEvent::PlayerDied])
    );
    let on_tome = vec![(Health { current: 3, max: 15 }, Point::new(4, 4))];
    assert_eq!(
        end_turn(TurnState::MonsterTurn, &on_tome, Point::new(4, 4), &m),
        (TurnState::Victory, vec![TurnEvent::TomeReached])
    );
    // Dying on the exit still leads to the next level, with the score recorded.
    let dead_on_exit = vec![(Health { current: -2, max: 15 }, Point::new(3, 3))];
    assert_eq!(
        end_turn(TurnState::PlayerTurn, &dead_on_exit, Point::new(-1, -1), &m),
        (TurnState::NextLevel, vec![TurnEvent::PlayerDied])
    );
}
