use blaseball_watch::display::{game_over_message, status_line};
use blaseball_watch::game::{
    bases, event, eq_ignore_ascii_case, find_team, game_for_team, GameOver, half_mark,
    judgement, NotifyGameStart, outs, PlayBall, Status, team_scores, verdict, GameState,
    Team,
};

fn game(away: &str, home: &str) -> GameState {
    GameState {
        away_team: away.to_string(),
        home_team: home.to_string(),
        away_team_nickname: "Crabs".to_string(),
        home_team_nickname: "Tigers".to_string(),
        away_team_emoji: '\u{1F980}',
        home_team_emoji: 'T',
        inning: 0,
        at_bat_balls: 0,
        at_bat_strikes: 0,
        last_update: String::new(),
        away_score: 0,
        home_score: 0,
        away_bases: 4,
        home_bases: 4,
        bases_occupied: Vec::new(),
        half_inning_outs: 0,
        top_of_inning: true,
        game_start: false,
        game_complete: false,
    }
}

fn team(id: &str, nickname: &str) -> Team {
    Team {
        id: id.to_string(),
        full_name: format!("The {}", nickname),
        location: "Here".to_string(),
        nickname: nickname.to_string(),
        shorthand: "X".to_string(),
        emoji: 'x',
    }
}

#[test]
fn play_ball_fires_once_on_start() {
    let before = game("a", "h");
    let mut started = game("a", "h");
    started.game_start = true;
    assert!(PlayBall::due(&None, &started));
    assert!(PlayBall::due(&Some(before), &started));
    let mut again = game("a", "h");
    again.game_start = true;
    assert!(!PlayBall::due(&Some(again), &started));
    assert!(!PlayBall::due(&None, &game("a", "h")));
    let mut over = game("a", "h");
    over.game_start = true;
    over.game_complete = true;
    assert!(!PlayBall::due(&None, &over));
}

#[test]
fn notify_needs_earlier_state() {
    let mut started = game("a", "h");
    started.game_start = true;
    assert!(!NotifyGameStart::due(&None, &started));
    assert!(NotifyGameStart::due(&Some(game("a", "h")), &started));
}

#[test]
fn status_only_while_playing() {
    let mut g = game("a", "h");
    assert!(!Status::due(&g));
    g.game_start = true;
    assert!(Status::due(&g));
    g.game_complete = true;
    assert!(!Status::due(&g));
}

#[test]
fn game_over_on_completion() {
    let mut done = game("a", "h");
    done.game_complete = true;
    assert!(GameOver::due(&Some(game("a", "h")), &done));
    let mut done_before = game("a", "h");
    done_before.game_complete = true;
    assert!(!GameOver::due(&Some(done_before), &done));
    assert!(!GameOver::due(&None, &done));
}

#[test]
fn event_marks() {
    let prev = game("a", "h");
    let mut run = game("a", "h");
    run.home_score = 1;
    assert_eq!(event(&Some(prev), &run), "\u{26BE}");
    let mut turn = game("a", "h");
    turn.top_of_inning = false;
    assert_eq!(event(&Some(game("a", "h")), &turn), "\u{27F3} ");
    let mut out = game("a", "h");
    out.half_inning_outs = 1;
    assert_eq!(event(&Some(game("a", "h")), &out), "\u{25CF} ");
    assert_eq!(event(&Some(game("a", "h")), &game("a", "h")), "  ");
    assert_eq!(event(&None, &run), "  ");
}

#[test]
fn bases_line() {
    let mut g = game("a", "h");
    g.bases_occupied = vec![0, 2];
    assert_eq!(bases(&g), "\u{25C6}\u{25C7}\u{25C6}");
    g.top_of_inning = false;
    g.home_bases = 5;
    g.bases_occupied = vec![3];
    assert_eq!(bases(&g), "\u{25C6}\u{25C7}\u{25C7}\u{25C7}");
    g.home_bases = 0;
    assert_eq!(bases(&g), "");
}

#[test]
fn outs_marks() {
    assert_eq!(outs(0), "\u{25CB} \u{25CB}");
    assert_eq!(outs(1), "\u{25CF} \u{25CB}");
    assert_eq!(outs(2), "\u{25CF} \u{25CF}");
    assert_eq!(half_mark(true), '\u{25B4}');
    assert_eq!(half_mark(false), '\u{25BE}');
}

#[test]
fn team_lookup_ignores_ascii_case() {
    let teams = vec![team("1", "Crabs"), team("2", "Tigers"), team("3", "tigers")];
    assert_eq!(find_team(&teams, "tIGERS"), Some(1));
    assert_eq!(find_team(&teams, "crabs"), Some(0));
    assert_eq!(find_team(&teams, "Fridays"), None);
    assert!(eq_ignore_ascii_case("ABC", "abc"));
    assert!(!eq_ignore_ascii_case("ABC", "abd"));
    assert!(!eq_ignore_ascii_case("AB", "ABC"));
}

#[test]
fn game_lookup_by_team() {
    let games = vec![game("1", "2"), game("3", "4"), game("5", "3")];
    assert_eq!(game_for_team(&games, &"3".to_string()), Some(1));
    assert_eq!(game_for_team(&games, &"2".to_string()), Some(0));
    assert_eq!(game_for_team(&games, &"9".to_string()), None);
}

#[test]
fn scores_from_rooting_side() {
    let mut g = game("1", "2");
    g.away_score = 5;
    g.home_score = 3;
    assert_eq!(team_scores(&g, &"1".to_string()), (5, 3));
    assert_eq!(team_scores(&g, &"2".to_string()), (3, 5));
}

#[test]
fn verdicts() {
    assert_eq!(judgement(&"Crabs".to_string(), 5, 3), "Crabs good!");
    assert_eq!(judgement(&"CRABS".to_string(), 3, 5), "Crabs bad!");
    assert_eq!(judgement(&"Tigers".to_string(), 5, 3), "Tigers win!");
    assert_eq!(judgement(&"Tigers".to_string(), 3, 3), "Tigers lose!");
    assert_eq!(verdict(&"crabs".to_string(), &"Anything".to_string(), 1, 0), "Crabs good!");
}

#[test]
fn status_line_layout() {
    let prev = game("a", "h");
    let mut cur = game("a", "h");
    cur.game_start = true;
    cur.inning = 2;
    cur.away_score = 1;
    cur.home_score = 10;
    cur.bases_occupied = vec![1];
    cur.at_bat_balls = 3;
    cur.at_bat_strikes = 2;
    cur.half_inning_outs = 1;
    cur.last_update = "Strike, looking.\nBall.\n  ".to_string();
    assert_eq!(
        status_line(&Some(prev), &cur, "12:34"),
        "[12:34][\u{26BE}] \u{25B4}3 \u{1F980}1  T 10 | \u{25C7}\u{25C6}\u{25C7} 3-2 \u{25CF} \u{25CB} : Strike, looking. Ball."
    );
}

#[test]
fn status_line_right_aligns_bases() {
    let mut cur = game("a", "h");
    cur.game_start = true;
    cur.top_of_inning = false;
    cur.inning = 9;
    cur.away_bases = 5;
    cur.home_bases = 4;
    cur.home_score = -1;
    assert_eq!(
        status_line(&None, &cur, "09:00"),
        "[09:00][  ] \u{25BE}10\u{1F980}0  T -1 |  \u{25C7}\u{25C7}\u{25C7} 0-0 \u{25CB} \u{25CB} : "
    );
}

#[test]
fn game_over_message_text() {
    let mut cur = game("a", "h");
    cur.game_complete = true;
    cur.away_score = 4;
    cur.home_score = 2;
    assert_eq!(
        game_over_message(&cur, &team("a", "Crabs")),
        "Crabs good! \u{1F980}Crabs 4 to T Tigers 2"
    );
    assert_eq!(
        game_over_message(&cur, &team("h", "Tigers")),
        "Tigers lose! \u{1F980}Crabs 4 to T Tigers 2"
    );
}
