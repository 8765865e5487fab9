//! The decisions of the reactions to a game's progress: when each one fires
//! and the marks it shows. Printing and notifying are left to the caller.
use vstd::prelude::*;
use crate::emoji::{display_width, pad, padded};
use crate::text::{chars_of, string_of};

verus! {

pub const TOP: char = '\u{25B4}';
pub const BOTTOM: char = '\u{25BE}';
pub const OUT: char = '\u{25CF}';
pub const NOT_OUT: char = '\u{25CB}';
pub const BASE_EMPTY: char = '\u{25C7}';
pub const BASE_OCCUPIED: char = '\u{25C6}';
pub const BLASEBALL: char = '\u{26BE}';
pub const ROTATE: char = '\u{27F3}';

/// A team of the league.
pub struct Team {
    pub id: String,
    pub full_name: String,
    pub location: String,
    pub nickname: String,
    pub shorthand: String,
    pub emoji: char,
}

/// What the reactions read of one game's state.
pub struct GameState {
    pub away_team: String,
    pub home_team: String,
    pub away_team_nickname: String,
    pub home_team_nickname: String,
    pub away_team_emoji: char,
    pub home_team_emoji: char,
    pub inning: i32,
    pub at_bat_balls: u32,
    pub at_bat_strikes: u32,
    pub last_update: String,
    pub away_score: i32,
    pub home_score: i32,
    pub away_bases: u32,
    pub home_bases: u32,
    pub bases_occupied: Vec<u32>,
    pub half_inning_outs: i32,
    pub top_of_inning: bool,
    pub game_start: bool,
    pub game_complete: bool,
}

/// The game has just started: it had not, or there was no earlier state.
pub open spec fn starts_now(prev: Option<GameState>, cur: GameState) -> bool {
    cur.game_start && match prev {
        None => true,
        Some(p) => !p.game_start,
    }
}

/// The announcement of the start of play, with odds, pitchers and weather.
pub struct PlayBall;

impl PlayBall {
    /// Whether to announce the start of play: the game has just started and is
    /// not already over.
    pub fn due(prev: &Option<GameState>, cur: &GameState) -> (r: bool)
        ensures
            r == (starts_now(*prev, *cur) && !cur.game_complete),
    {
        let first = match prev {
            None => cur.game_start,
            Some(p) => cur.game_start && !p.game_start,
        };
        first && !cur.game_complete
    }
}

/// The desktop notification of the start of a game.
pub struct NotifyGameStart;

impl NotifyGameStart {
    /// Whether to notify of the start: an earlier state had not started, this
    /// one has.
    pub fn due(prev: &Option<GameState>, cur: &GameState) -> (r: bool)
        ensures
            r == (prev is Some && !prev->Some_0.game_start && cur.game_start),
    {
        match prev {
            Some(p) => !p.game_start && cur.game_start,
            None => false,
        }
    }
}

/// The status line of a game under way.
pub struct Status;

impl Status {
    /// Whether to show a status line: the game is under way.
    pub fn due(cur: &GameState) -> (r: bool)
        ensures
            r == (cur.game_start && !cur.game_complete),
    {
        cur.game_start && !cur.game_complete
    }
}

/// The announcement of the end of a game, with a verdict.
pub struct GameOver;

impl GameOver {
    /// Whether to announce the end: an earlier state was not complete, this one
    /// is.
    pub fn due(prev: &Option<GameState>, cur: &GameState) -> (r: bool)
        ensures
            r == (prev is Some && !prev->Some_0.game_complete && cur.game_complete),
    {
        match prev {
            Some(p) => !p.game_complete && cur.game_complete,
            None => false,
        }
    }
}

/// The mark of what changed since the earlier state: a run, a change of
/// half inning, an out; `None` for nothing of these.
pub open spec fn event_mark(prev: Option<GameState>, cur: GameState) -> Option<char> {
    match prev {
        None => None,
        Some(p) => if p.away_score < cur.away_score || p.home_score < cur.home_score {
            Some(BLASEBALL)
        } else if p.top_of_inning != cur.top_of_inning {
            Some(ROTATE)
        } else if p.half_inning_outs < cur.half_inning_outs {
            Some(OUT)
        } else {
            None
        },
    }
}

/// The change mark padded to two columns, or two spaces.
pub open spec fn event_text(prev: Option<GameState>, cur: GameState) -> Seq<char> {
    match event_mark(prev, cur) {
        Some(c) => padded(c, display_width(c)),
        None => "  "@,
    }
}

/// The change mark padded to two columns, or two spaces.
pub fn event(prev: &Option<GameState>, cur: &GameState) -> (r: String)
    ensures
        r@ == event_text(*prev, *cur),
{
    match prev {
        None => String::from_str("  "),
        Some(p) => {
            if p.away_score < cur.away_score {
                pad(BLASEBALL)
            } else if p.home_score < cur.home_score {
                pad(BLASEBALL)
            } else if p.top_of_inning != cur.top_of_inning {
                pad(ROTATE)
            } else if p.half_inning_outs < cur.half_inning_outs {
                pad(OUT)
            } else {
                String::from_str("  ")
            }
        },
    }
}

fn contains_u32(v: &Vec<u32>, x: u32) -> (r: bool)
    ensures
        r == v@.contains(x),
{
    let mut i: usize = 0;
    while i < v.len()
        invariant
            0 <= i <= v@.len(),
            forall|j: int| 0 <= j < i ==> v@[j] != x,
        decreases v@.len() - i,
    {
        if v[i] == x {
            return true;
        }
        i += 1;
    }
    false
}

/// The bases of the side at bat but home plate, highest first: a filled mark
/// for an occupied one.
pub open spec fn bases_marks(num_bases: u32, occupied: Seq<u32>) -> Seq<char> {
    let n = if num_bases == 0 { 0 } else { num_bases - 1 };
    Seq::new(
        n as nat,
        |k: int|
            if occupied.contains((n - 1 - k) as u32) {
                BASE_OCCUPIED
            } else {
                BASE_EMPTY
            },
    )
}

/// The number of bases of the side at bat.
pub open spec fn bases_at_bat(cur: GameState) -> u32 {
    if cur.top_of_inning {
        cur.away_bases
    } else {
        cur.home_bases
    }
}

/// The bases line of the side at bat.
pub fn bases(cur: &GameState) -> (r: String)
    ensures
        r@ == bases_marks(bases_at_bat(*cur), cur.bases_occupied@),
{
    let num_bases = if cur.top_of_inning {
        cur.away_bases
    } else {
        cur.home_bases
    };
    let n: u32 = if num_bases == 0 {
        0
    } else {
        num_bases - 1
    };
    let ghost want = bases_marks(num_bases, cur.bases_occupied@);
    let mut marks: Vec<char> = Vec::new();
    let mut b: u32 = n;
    while b > 0
        invariant
            b <= n,
            n == (if num_bases == 0 { 0 } else { num_bases - 1 }),
            want.len() == n,
            want == bases_marks(num_bases, cur.bases_occupied@),
            marks@ == want.subrange(0, (n - b) as int),
        decreases b,
    {
        b -= 1;
        let mark = if contains_u32(&cur.bases_occupied, b) {
            BASE_OCCUPIED
        } else {
            BASE_EMPTY
        };
        marks.push(mark);
        assert(marks@ =~= want.subrange(0, (n - b) as int));
    }
    assert(marks@ =~= want);
    string_of(marks.as_slice())
}

pub open spec fn outs_marks(outs: i32) -> Seq<char> {
    seq![if outs > 0 { OUT } else { NOT_OUT }, ' ', if outs > 1 { OUT } else { NOT_OUT }]
}

/// Two marks of the outs in the half inning.
pub fn outs(half_inning_outs: i32) -> (r: String)
    ensures
        r@ == outs_marks(half_inning_outs),
{
    let first = if half_inning_outs > 0 {
        OUT
    } else {
        NOT_OUT
    };
    let second = if half_inning_outs > 1 {
        OUT
    } else {
        NOT_OUT
    };
    let v = vec![first, ' ', second];
    assert(v@ =~= outs_marks(half_inning_outs));
    string_of(v.as_slice())
}

/// The inning mark: a triangle up in the top half, down in the bottom.
pub fn half_mark(top_of_inning: bool) -> (r: char)
    ensures
        r == (if top_of_inning { TOP } else { BOTTOM }),
{
    if top_of_inning {
        TOP
    } else {
        BOTTOM
    }
}

/// A character with ASCII upper case folded to lower case, as a code.
pub open spec fn ascii_fold(c: char) -> u32 {
    if 'A' <= c && c <= 'Z' {
        (c as u32 + 32) as u32
    } else {
        c as u32
    }
}

/// Equal but for ASCII case.
pub open spec fn eq_ascii_folded(a: Seq<char>, b: Seq<char>) -> bool {
    a.len() == b.len() && forall|i: int| 0 <= i < a.len() ==> ascii_fold(#[trigger] a[i]) == ascii_fold(b[i])
}

/// Whether two strings are equal but for ASCII case.
pub fn eq_ignore_ascii_case(a: &str, b: &str) -> (r: bool)
    ensures
        r == eq_ascii_folded(a@, b@),
{
    let x = chars_of(a);
    let y = chars_of(b);
    if x.len() != y.len() {
        return false;
    }
    let mut i: usize = 0;
    while i < x.len()
        invariant
            0 <= i <= x@.len(),
            x@.len() == y@.len(),
            x@ == a@,
            y@ == b@,
            forall|j: int| 0 <= j < i ==> ascii_fold(#[trigger] x@[j]) == ascii_fold(y@[j]),
        decreases x@.len() - i,
    {
        let c = x[i];
        let d = y[i];
        let fc: u32 = if 'A' <= c && c <= 'Z' { c as u32 + 32 } else { c as u32 };
        let fd: u32 = if 'A' <= d && d <= 'Z' { d as u32 + 32 } else { d as u32 };
        if fc != fd {
            return false;
        }
        i += 1;
    }
    true
}

/// The index of the first team whose nickname is `name` but for ASCII case.
pub fn find_team(teams: &Vec<Team>, name: &str) -> (r: Option<usize>)
    ensures
        match r {
            Some(i) => i < teams@.len() && eq_ascii_folded(teams@[i as int].nickname@, name@)
                && forall|j: int| 0 <= j < i ==> !eq_ascii_folded(#[trigger] teams@[j].nickname@, name@),
            None => forall|j: int| 0 <= j < teams@.len() ==> !eq_ascii_folded(#[trigger] teams@[j].nickname@, name@),
        },
{
    let mut i: usize = 0;
    while i < teams.len()
        invariant
            0 <= i <= teams@.len(),
            forall|j: int| 0 <= j < i ==> !eq_ascii_folded(#[trigger] teams@[j].nickname@, name@),
        decreases teams@.len() - i,
    {
        if eq_ignore_ascii_case(teams[i].nickname.as_str(), name) {
            return Some(i);
        }
        i += 1;
    }
    None
}

/// Whether the team of this id plays in the game.
pub open spec fn plays_in(g: GameState, team_id: Seq<char>) -> bool {
    g.away_team@ == team_id || g.home_team@ == team_id
}

/// The index of the first game in which the team of this id plays.
pub fn game_for_team(games: &Vec<GameState>, team_id: &String) -> (r: Option<usize>)
    ensures
        match r {
            Some(i) => i < games@.len() && plays_in(games@[i as int], team_id@)
                && forall|j: int| 0 <= j < i ==> !plays_in(#[trigger] games@[j], team_id@),
            None => forall|j: int| 0 <= j < games@.len() ==> !plays_in(#[trigger] games@[j], team_id@),
        },
{
    let mut i: usize = 0;
    while i < games.len()
        invariant
            0 <= i <= games@.len(),
            forall|j: int| 0 <= j < i ==> !plays_in(#[trigger] games@[j], team_id@),
        decreases games@.len() - i,
    {
        if games[i].away_team == *team_id || games[i].home_team == *team_id {
            return Some(i);
        }
        i += 1;
    }
    None
}

/// The score of the team of this id and of its opponent: the away side's
/// when the id is the away team's, else the home side's.
pub fn team_scores(cur: &GameState, team_id: &String) -> (r: (i32, i32))
    ensures
        r == (if cur.away_team@ == team_id@ {
            (cur.away_score, cur.home_score)
        } else {
            (cur.home_score, cur.away_score)
        }),
{
    if cur.away_team == *team_id {
        (cur.away_score, cur.home_score)
    } else {
        (cur.home_score, cur.away_score)
    }
}

/// The lower-case form of a string, as `str::to_lowercase` makes it.
pub uninterp spec fn lower_of(s: Seq<char>) -> Seq<char>;

/// Relies on `str::to_lowercase`: the result depends on the characters alone.
#[verifier::external_body]
fn to_lowercase(s: &str) -> (r: String)
    ensures
        r@ == lower_of(s@),
{
    s.to_lowercase()
}

/// The verdict on a finished game for the team of this nickname, whose
/// lower-case form is `lowered`: the Crabs are good or bad, any other team
/// wins or loses.
pub open spec fn verdict_text(
    lowered: Seq<char>,
    nickname: Seq<char>,
    team_score: i32,
    other_score: i32,
) -> Seq<char> {
    if lowered == "crabs"@ {
        if team_score > other_score {
            "Crabs good!"@
        } else {
            "Crabs bad!"@
        }
    } else if team_score > other_score {
        nickname + " win!"@
    } else {
        nickname + " lose!"@
    }
}

/// The verdict, given the nickname's lower-case form.
pub fn verdict(lowered: &String, nickname: &String, team_score: i32, other_score: i32) -> (r:
    String)
    ensures
        r@ == verdict_text(lowered@, nickname@, team_score, other_score),
{
    let crabs = String::from_str("crabs");
    if *lowered == crabs {
        if team_score > other_score {
            String::from_str("Crabs good!")
        } else {
            String::from_str("Crabs bad!")
        }
    } else if team_score > other_score {
        nickname.clone().concat(" win!")
    } else {
        nickname.clone().concat(" lose!")
    }
}

/// The verdict on a finished game for the team of this nickname.
pub fn judgement(nickname: &String, team_score: i32, other_score: i32) -> (r: String)
    ensures
        r@ == verdict_text(lower_of(nickname@), nickname@, team_score, other_score),
{
    let lowered = to_lowercase(nickname.as_str());
    verdict(&lowered, nickname, team_score, other_score)
}

} // verus!
