use pong::display::{decimal_text, update_scores};
use pong::score::{BallDestroyed, Score, Scoreboard};

fn point(player_scored: bool) -> BallDestroyed {
    BallDestroyed { player_scored }
}

#[test]
fn scoreboard_starts_at_zero() {
    assert_eq!(Scoreboard::default(), Scoreboard { player: 0, computer: 0 });
}

#[test]
fn player_point_counts_and_sounds() {
    let mut board = Scoreboard { player: 2, computer: 5 };
    let sounds = board.award_points(&vec![point(true)]);
    assert_eq!(board, Scoreboard { player: 3, computer: 5 });
    assert_eq!(sounds, 1);
}

#[test]
fn computer_point_counts_without_a_sound() {
    let mut board = Scoreboard { player: 2, computer: 5 };
    let sounds = board.award_points(&vec![point(false)]);
    assert_eq!(board, Scoreboard { player: 2, computer: 6 });
    assert_eq!(sounds, 0);
}

#[test]
fn every_event_gives_its_point() {
    let mut board = Scoreboard::default();
    let events = vec![point(true), point(false), point(true), point(true)];
    let sounds = board.award_points(&events);
    assert_eq!(board, Scoreboard { player: 3, computer: 1 });
    assert_eq!(sounds, 3);
}

#[test]
fn no_event_gives_no_point() {
    let mut board = Scoreboard { player: 4, computer: 4 };
    let sounds = board.award_points(&Vec::new());
    assert_eq!(board, Scoreboard { player: 4, computer: 4 });
    assert_eq!(sounds, 0);
}

#[test]
fn awarding_never_lowers_a_counter() {
    let mut board = Scoreboard { player: 10, computer: 20 };
    let rounds = [true, false, false, true, false];
    for player_scored in rounds {
        let before = board;
        board.award_points(&vec![point(player_scored)]);
        assert!(board.player >= before.player);
        assert!(board.computer >= before.computer);
        assert_eq!(board.player + board.computer, before.player + before.computer + 1);
    }
}

#[test]
fn full_counter_cannot_take_a_point() {
    let board = Scoreboard { player: u32::MAX, computer: u32::MAX - 1 };
    assert!(!board.can_award(&vec![point(true)]));
    assert!(board.can_award(&vec![point(false)]));
    assert!(!board.can_award(&vec![point(false), point(false)]));
    assert!(board.can_award(&Vec::new()));
}

#[test]
fn counter_may_reach_its_limit() {
    let mut board = Scoreboard { player: u32::MAX - 1, computer: 0 };
    assert!(board.can_award(&vec![point(true)]));
    board.award_points(&vec![point(true)]);
    assert_eq!(board.player, u32::MAX);
}

#[test]
fn display_mark_picks_the_counter() {
    let board = Scoreboard { player: 3, computer: 8 };
    assert_eq!(Score(true).shown(&board), 3);
    assert_eq!(Score(false).shown(&board), 8);
}

#[test]
fn decimal_text_writes_digits() {
    assert_eq!(decimal_text(0), "0");
    assert_eq!(decimal_text(7), "7");
    assert_eq!(decimal_text(9), "9");
    assert_eq!(decimal_text(10), "10");
    assert_eq!(decimal_text(105), "105");
    assert_eq!(decimal_text(1234567890), "1234567890");
    assert_eq!(decimal_text(u32::MAX), "4294967295");
}

#[test]
fn decimal_text_agrees_with_to_string() {
    let mut n: u32 = 0;
    while n < 3000 {
        assert_eq!(decimal_text(n), n.to_string());
        n += 1;
    }
}

#[test]
fn displays_show_their_counters() {
    let board = Scoreboard { player: 12, computer: 0 };
    let texts = update_scores(&board, &vec![Score(false), Score(true)]);
    assert_eq!(texts, vec![String::from("0"), String::from("12")]);
    assert!(update_scores(&board, &Vec::new()).is_empty());
}
