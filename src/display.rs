//! The text of the status line of a game under way and of the message at its
//! end.
use vstd::prelude::*;
use crate::emoji::{display_width, pad, padded};
use crate::game::{
    bases, bases_at_bat, bases_marks, event, event_text, half_mark, judgement, lower_of, outs,
    outs_marks, team_scores, verdict_text, GameState, Team, BOTTOM, TOP,
};
use crate::text::{chars_of, string_of, trim_end, trim_end_of};

verus! {

pub open spec fn digit_char(d: int) -> char {
    if d == 0 {
        '0'
    } else if d == 1 {
        '1'
    } else if d == 2 {
        '2'
    } else if d == 3 {
        '3'
    } else if d == 4 {
        '4'
    } else if d == 5 {
        '5'
    } else if d == 6 {
        '6'
    } else if d == 7 {
        '7'
    } else if d == 8 {
        '8'
    } else {
        '9'
    }
}

/// The decimal digits of a natural number, without leading zeros.
pub open spec fn digits_of(n: nat) -> Seq<char>
    decreases n,
{
    if n < 10 {
        seq![digit_char(n as int)]
    } else {
        digits_of(n / 10).push(digit_char((n % 10) as int))
    }
}

/// An integer in decimal, with a minus sign when negative.
pub open spec fn decimal_text(n: int) -> Seq<char> {
    if n < 0 {
        seq!['-'] + digits_of((-n) as nat)
    } else {
        digits_of(n as nat)
    }
}

pub open spec fn spaces(n: nat) -> Seq<char> {
    Seq::new(n, |i: int| ' ')
}

/// The text, followed by spaces up to `k` characters.
pub open spec fn pad_right(t: Seq<char>, k: nat) -> Seq<char> {
    if t.len() >= k {
        t
    } else {
        t + spaces((k - t.len()) as nat)
    }
}

/// The text, after spaces up to `k` characters.
pub open spec fn pad_left(t: Seq<char>, k: nat) -> Seq<char> {
    if t.len() >= k {
        t
    } else {
        spaces((k - t.len()) as nat) + t
    }
}

/// The text with each line feed made a space.
pub open spec fn one_line(t: Seq<char>) -> Seq<char> {
    Seq::new(t.len(), |i: int| if t[i] == '\n' { ' ' } else { t[i] })
}

/// The emoji padded to two columns.
pub open spec fn emoji_text(c: char) -> Seq<char> {
    padded(c, display_width(c))
}

/// The bases but home plate of a side with this many.
pub open spec fn bases_but_home(n: u32) -> nat {
    if n == 0 {
        0
    } else {
        (n - 1) as nat
    }
}

/// The status line: the time, the change mark, the inning, the scores, the
/// bases right-aligned to the longer side's, the count, the outs and the last
/// update on one line.
pub open spec fn status_text(prev: Option<GameState>, cur: GameState, now: Seq<char>) -> Seq<
    char,
> {
    let half = if cur.top_of_inning {
        TOP
    } else {
        BOTTOM
    };
    let width = if bases_but_home(cur.away_bases) >= bases_but_home(cur.home_bases) {
        bases_but_home(cur.away_bases)
    } else {
        bases_but_home(cur.home_bases)
    };
    "["@ + now + "]["@ + event_text(prev, cur) + "] "@ + seq![half] + pad_right(
        decimal_text(cur.inning + 1),
        2,
    ) + emoji_text(cur.away_team_emoji) + pad_right(decimal_text(cur.away_score as int), 3)
        + emoji_text(cur.home_team_emoji) + pad_right(decimal_text(cur.home_score as int), 2)
        + " | "@ + pad_left(bases_marks(bases_at_bat(cur), cur.bases_occupied@), width) + " "@
        + decimal_text(cur.at_bat_balls as int) + "-"@ + decimal_text(cur.at_bat_strikes as int)
        + " "@ + outs_marks(cur.half_inning_outs) + " : "@ + one_line(
        trim_end_of(cur.last_update@),
    )
}

/// The message at the end of a game: the verdict for the team rooted for,
/// then each side's emoji, nickname and score.
pub open spec fn game_over_text(cur: GameState, rooting_for: Team) -> Seq<char> {
    let (team_score, other_score) = if cur.away_team@ == rooting_for.id@ {
        (cur.away_score, cur.home_score)
    } else {
        (cur.home_score, cur.away_score)
    };
    verdict_text(lower_of(rooting_for.nickname@), rooting_for.nickname@, team_score, other_score)
        + " "@ + emoji_text(cur.away_team_emoji) + cur.away_team_nickname@ + " "@ + decimal_text(
        cur.away_score as int,
    ) + " to "@ + emoji_text(cur.home_team_emoji) + cur.home_team_nickname@ + " "@
        + decimal_text(cur.home_score as int)
}

/// Relies on `i64`'s `ToString`: the decimal text of the number.
#[verifier::external_body]
fn decimal(n: i64) -> (r: Vec<char>)
    ensures
        r@ == decimal_text(n as int),
{
    n.to_string().chars().collect()
}

fn join(a: Vec<char>, b: Vec<char>) -> (r: Vec<char>)
    ensures
        r@ == a@ + b@,
{
    let mut a = a;
    let mut b = b;
    a.append(&mut b);
    a
}

fn text(s: &str) -> (r: Vec<char>)
    ensures
        r@ == s@,
{
    chars_of(s)
}

fn spaces_vec(n: usize) -> (r: Vec<char>)
    ensures
        r@ == spaces(n as nat),
{
    let mut r: Vec<char> = Vec::new();
    let mut i: usize = 0;
    while i < n
        invariant
            i <= n,
            r@ =~= spaces(i as nat),
        decreases n - i,
    {
        r.push(' ');
        i += 1;
    }
    r
}

fn right_padded(t: Vec<char>, k: usize) -> (r: Vec<char>)
    ensures
        r@ == pad_right(t@, k as nat),
{
    if t.len() >= k {
        t
    } else {
        let n = k - t.len();
        join(t, spaces_vec(n))
    }
}

fn left_padded(t: Vec<char>, k: usize) -> (r: Vec<char>)
    ensures
        r@ == pad_left(t@, k as nat),
{
    if t.len() >= k {
        t
    } else {
        let n = k - t.len();
        join(spaces_vec(n), t)
    }
}

fn one_line_vec(t: &[char]) -> (r: Vec<char>)
    ensures
        r@ == one_line(t@),
{
    let mut r: Vec<char> = Vec::new();
    let mut i: usize = 0;
    while i < t.len()
        invariant
            i <= t@.len(),
            r@ =~= one_line(t@.subrange(0, i as int)),
        decreases t@.len() - i,
    {
        let c = if t[i] == '\n' {
            ' '
        } else {
            t[i]
        };
        r.push(c);
        i += 1;
        assert(r@ =~= one_line(t@.subrange(0, i as int)));
    }
    assert(t@.subrange(0, t@.len() as int) =~= t@);
    r
}

fn emoji_vec(c: char) -> (r: Vec<char>)
    ensures
        r@ == emoji_text(c),
{
    let s = pad(c);
    chars_of(s.as_str())
}

/// The status line of a game under way, with `now` the local time as the
/// line shows it.
pub fn status_line(prev: &Option<GameState>, cur: &GameState, now: &str) -> (r: String)
    ensures
        r@ == status_text(*prev, *cur, now@),
{
    let away_n: u32 = if cur.away_bases == 0 {
        0
    } else {
        cur.away_bases - 1
    };
    let home_n: u32 = if cur.home_bases == 0 {
        0
    } else {
        cur.home_bases - 1
    };
    let width: u32 = if away_n >= home_n {
        away_n
    } else {
        home_n
    };
    let ev = event(prev, cur);
    let bs = bases(cur);
    let os = outs(cur.half_inning_outs);
    let update = one_line_vec(trim_end(chars_of(cur.last_update.as_str()).as_slice()).as_slice());
    let mut out = text("[");
    out = join(out, text(now));
    out = join(out, text("]["));
    out = join(out, chars_of(ev.as_str()));
    out = join(out, text("] "));
    let half = half_mark(cur.top_of_inning);
    out = join(out, vec![half]);
    out = join(out, right_padded(decimal(cur.inning as i64 + 1), 2));
    out = join(out, emoji_vec(cur.away_team_emoji));
    out = join(out, right_padded(decimal(cur.away_score as i64), 3));
    out = join(out, emoji_vec(cur.home_team_emoji));
    out = join(out, right_padded(decimal(cur.home_score as i64), 2));
    out = join(out, text(" | "));
    out = join(out, left_padded(chars_of(bs.as_str()), width as usize));
    out = join(out, text(" "));
    out = join(out, decimal(cur.at_bat_balls as i64));
    out = join(out, text("-"));
    out = join(out, decimal(cur.at_bat_strikes as i64));
    out = join(out, text(" "));
    out = join(out, chars_of(os.as_str()));
    out = join(out, text(" : "));
    out = join(out, update);
    string_of(out.as_slice())
}

/// The message at the end of a game for the team rooted for.
pub fn game_over_message(cur: &GameState, rooting_for: &Team) -> (r: String)
    ensures
        r@ == game_over_text(*cur, *rooting_for),
{
    let (team_score, other_score) = team_scores(cur, &rooting_for.id);
    let verdict = judgement(&rooting_for.nickname, team_score, other_score);
    let mut out = chars_of(verdict.as_str());
    out = join(out, text(" "));
    out = join(out, emoji_vec(cur.away_team_emoji));
    out = join(out, chars_of(cur.away_team_nickname.as_str()));
    out = join(out, text(" "));
    out = join(out, decimal(cur.away_score as i64));
    out = join(out, text(" to "));
    out = join(out, emoji_vec(cur.home_team_emoji));
    out = join(out, chars_of(cur.home_team_nickname.as_str()));
    out = join(out, text(" "));
    out = join(out, decimal(cur.home_score as i64));
    string_of(out.as_slice())
}

} // verus!
