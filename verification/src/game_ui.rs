use vstd::prelude::*;
use crate::player::LifeEvent;

verus! {

/// The number of life icons the game screen shows room for.
pub const LIFE_ICON_COUNT: u32 = 5;

/// The character of decimal digit `d`.
pub open spec fn digit_char(d: int) -> char {
    if d == 0 {
        '0'
    } else if d == 1 {
        '1'
    } else if d == 2 {
        '2'
    } else if d == 3 {
        '3'
    } else if d == 4 {
        '4'
    } else if d == 5 {
        '5'
    } else if d == 6 {
        '6'
    } else if d == 7 {
        '7'
    } else if d == 8 {
        '8'
    } else {
        '9'
    }
}

/// The value of decimal digit character `c`.
pub open spec fn digit_value(c: char) -> int {
    if c == '0' {
        0
    } else if c == '1' {
        1
    } else if c == '2' {
        2
    } else if c == '3' {
        3
    } else if c == '4' {
        4
    } else if c == '5' {
        5
    } else if c == '6' {
        6
    } else if c == '7' {
        7
    } else if c == '8' {
        8
    } else {
        9
    }
}

/// The decimal writing of `n`, without leading zeros.
pub open spec fn decimal(n: nat) -> Seq<char>
    decreases n,
{
    if n < 10 {
        seq![digit_char(n as int)]
    } else {
        decimal(n / 10).push(digit_char((n % 10) as int))
    }
}

/// The number that a string of decimal digits stands for.
pub open spec fn decimal_value(s: Seq<char>) -> int
    decreases s.len(),
{
    if s.len() == 0 {
        0
    } else {
        decimal_value(s.drop_last()) * 10 + digit_value(s.last())
    }
}

/// The character of digit `d`.
fn digit_str(d: u32) -> (s: &'static str)
    requires
        d < 10,
    ensures
        s@ == seq![digit_char(d as int)],
{
    let digits = "0123456789";
    proof {
        reveal_strlit("0123456789");
        assert(digits@.len() == 10);
        assert(vstd::string::is_ascii(digits));
    }
    let s = digits.substring_ascii(d as usize, d as usize + 1);
    proof {
        assert(s@ =~= seq![digits@[d as int]]);
    }
    s
}

/// The score as the game screen writes it: in decimal.
pub fn score_text(score: u32) -> (s: String)
    ensures
        s@ == decimal(score as nat),
    decreases score,
{
    if score < 10 {
        let mut s = String::new();
        s.append(digit_str(score));
        assert(s@ =~= decimal(score as nat));
        s
    } else {
        let mut s = score_text(score / 10);
        s.append(digit_str(score % 10));
        assert(s@ =~= decimal(score as nat));
        s
    }
}

/// The score text reads back as the score: it is the decimal writing of the
/// score, with no leading zero.
pub proof fn law_score_text_reads_back(n: nat)
    ensures
        decimal_value(decimal(n)) == n,
        decimal(n).len() > 0,
        n > 0 ==> decimal(n)[0] != '0',
    decreases n,
{
    if n >= 10 {
        law_score_text_reads_back(n / 10);
        let s = decimal(n);
        assert(s.drop_last() =~= decimal(n / 10));
        assert(s[0] == decimal(n / 10)[0]);
        lemma_digit_roundtrip((n % 10) as int);
        vstd::arithmetic::div_mod::lemma_fundamental_div_mod(n as int, 10);
        assert(s.last() == digit_char((n % 10) as int));
        assert(decimal_value(s) == decimal_value(s.drop_last()) * 10 + digit_value(s.last()));
        assert(decimal_value(s) == (n / 10) as int * 10 + (n % 10) as int);
    } else {
        lemma_digit_roundtrip(n as int);
        let s = decimal(n);
        assert(s == seq![digit_char(n as int)]);
        assert(s.drop_last() =~= Seq::<char>::empty());
        assert(decimal_value(s.drop_last()) == 0);
        assert(s.last() == digit_char(n as int));
        assert(decimal_value(s) == decimal_value(s.drop_last()) * 10 + digit_value(s.last()));
    }
}

proof fn lemma_digit_roundtrip(d: int)
    requires
        0 <= d < 10,
    ensures
        digit_value(digit_char(d)) == d,
        d > 0 ==> digit_char(d) != '0',
{
}

/// A life icon, by number from 0.
#[derive(Clone, Copy, Debug, PartialEq, Eq, Structural)]
pub struct LifeIcon(pub u32);

/// The life icons of the game screen: numbers 0 to 4.
pub fn life_icons() -> (icons: Vec<LifeIcon>)
    ensures
        icons@.len() == LIFE_ICON_COUNT,
        forall|i: int| 0 <= i < icons@.len() ==> #[trigger] icons@[i] == LifeIcon(i as u32),
{
    let mut icons: Vec<LifeIcon> = Vec::new();
    let mut i: u32 = 0;
    while i < LIFE_ICON_COUNT
        invariant
            i <= LIFE_ICON_COUNT,
            icons@.len() == i,
            forall|j: int| 0 <= j < i ==> #[trigger] icons@[j] == LifeIcon(j as u32),
        decreases LIFE_ICON_COUNT - i,
    {
        icons.push(LifeIcon(i));
        i = i + 1;
    }
    icons
}

/// Whether life icon `icon` shows when `lives` lives are left: icons
/// numbered up to the number of lives show.
pub open spec fn icon_shows(icon: LifeIcon, lives: u32) -> bool {
    !(icon.0 > lives)
}

/// Shows or hides each life icon after each life event, in order; so the
/// last event decides, and with no event nothing changes.
pub fn update_lives(icons: &Vec<LifeIcon>, shown: &mut Vec<bool>, events: &Vec<LifeEvent>)
    requires
        old(shown)@.len() == icons@.len(),
    ensures
        final(shown)@.len() == icons@.len(),
        events@.len() == 0 ==> final(shown)@ == old(shown)@,
        events@.len() > 0 ==> forall|i: int|
            0 <= i < icons@.len() ==> #[trigger] final(shown)@[i] == icon_shows(
                icons@[i],
                events@.last().lives,
            ),
{
    let mut e: usize = 0;
    while e < events.len()
        invariant
            e <= events@.len(),
            shown@.len() == icons@.len(),
            e == 0 ==> shown@ == old(shown)@,
            e > 0 ==> forall|i: int|
                0 <= i < icons@.len() ==> #[trigger] shown@[i] == icon_shows(
                    icons@[i],
                    events@[e - 1].lives,
                ),
        decreases events@.len() - e,
    {
        let lives = events[e].lives;
        let mut i: usize = 0;
        while i < icons.len()
            invariant
                e < events@.len(),
                lives == events@[e as int].lives,
                i <= icons@.len(),
                shown@.len() == icons@.len(),
                forall|j: int|
                    0 <= j < i ==> #[trigger] shown@[j] == icon_shows(icons@[j], lives),
            decreases icons@.len() - i,
        {
            let show = !(icons[i].0 > lives);
            shown.set(i, show);
            i = i + 1;
        }
        e = e + 1;
    }
}

/// The number of shown icons among the first `n`.
pub open spec fn shown_count(shown: Seq<bool>, n: int) -> int
    decreases n,
{
    if n <= 0 {
        0
    } else {
        shown_count(shown, n - 1) + if shown[n - 1] {
            1int
        } else {
            0int
        }
    }
}

/// With the game screen's icons, `lives` lives left show one icon more than
/// the lives, up to all five icons.
pub proof fn law_icons_shown(icons: Seq<LifeIcon>, shown: Seq<bool>, lives: u32)
    requires
        icons.len() == LIFE_ICON_COUNT,
        shown.len() == LIFE_ICON_COUNT,
        forall|i: int| 0 <= i < icons.len() ==> #[trigger] icons[i] == LifeIcon(i as u32),
        forall|i: int| 0 <= i < icons.len() ==> #[trigger] shown[i] == icon_shows(icons[i], lives),
    ensures
        shown_count(shown, LIFE_ICON_COUNT as int) == if lives + 1 < LIFE_ICON_COUNT {
            lives + 1
        } else {
            LIFE_ICON_COUNT as int
        },
{
    assert(icons[0] == LifeIcon(0));
    assert(icons[1] == LifeIcon(1));
    assert(icons[2] == LifeIcon(2));
    assert(icons[3] == LifeIcon(3));
    assert(icons[4] == LifeIcon(4));
    reveal_with_fuel(shown_count, 6);
}

} // verus!
