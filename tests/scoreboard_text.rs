use pong::scoreboard::Scoreboard;

fn board(left: usize, right: usize) -> Scoreboard {
    Scoreboard { left_player_score: left, right_player_score: right }
}

#[test]
fn text_of_three_and_five() {
    assert_eq!(board(3, 5).text(), "3 : 5");
    assert_eq!(Scoreboard::parse("3 : 5"), Some(board(3, 5)));
}

#[test]
fn text_of_larger_scores() {
    assert_eq!(Scoreboard::new().text(), "0 : 0");
    assert_eq!(board(10, 207).text(), "10 : 207");
    assert_eq!(board(usize::MAX, 0).text(), format!("{} : 0", usize::MAX));
}

#[test]
fn text_round_trips() {
    for (l, r) in [(0usize, 0usize), (3, 5), (9, 10), (120, 4), (usize::MAX, usize::MAX)] {
        assert_eq!(Scoreboard::parse(&board(l, r).text()), Some(board(l, r)));
    }
}

#[test]
fn parse_rejects_other_text() {
    assert_eq!(Scoreboard::parse(""), None);
    assert_eq!(Scoreboard::parse("3:5"), None);
    assert_eq!(Scoreboard::parse("3 : "), None);
    assert_eq!(Scoreboard::parse(" : 5"), None);
    assert_eq!(Scoreboard::parse("a : 5"), None);
    assert_eq!(Scoreboard::parse("3 : 5x"), None);
    assert_eq!(Scoreboard::parse("3 - 5"), None);
    assert_eq!(Scoreboard::parse("99999999999999999999999 : 1"), None);
}

#[test]
fn parse_accepts_leading_zeros() {
    assert_eq!(Scoreboard::parse("03 : 005"), Some(board(3, 5)));
}
