use vstd::prelude::*;
use crate::game_state::GameState;
use crate::input::{InputEventAction, InputEventType, InputTriggerMessage};

verus! {

/// The lives a new player starts with.
pub const PLAYER_START_LIVES: u32 = 3;

/// The player's remaining lives and score.
#[derive(Clone, Copy, Debug, PartialEq, Eq, Structural)]
pub struct Player {
    pub lives: u32,
    pub score: u32,
}

/// Points earned.
#[derive(Clone, Copy, Debug, PartialEq, Eq, Structural)]
pub struct ScoreMessage {
    pub score: u32,
}

impl ScoreMessage {
    pub fn new(score: u32) -> (m: Self)
        ensures
            m.score == score,
    {
        ScoreMessage { score }
    }
}

/// The number of lives changed.
#[derive(Clone, Copy, Debug, PartialEq, Eq, Structural)]
pub struct LifeEvent {
    pub lives: u32,
}

impl LifeEvent {
    pub fn new(lives: u32) -> (e: Self)
        ensures
            e.lives == lives,
    {
        LifeEvent { lives }
    }
}

/// The sum of the points of the first `n` messages.
pub open spec fn score_sum(msgs: Seq<ScoreMessage>, n: int) -> int
    decreases n,
{
    if n <= 0 {
        0
    } else {
        score_sum(msgs, n - 1) + msgs[n - 1].score
    }
}

/// The phase that the loss of a ship leads to: the player is dead while
/// lives are left, else the game is over.
pub open spec fn death_outcome(lives: u32) -> GameState {
    if lives > 0 {
        GameState::Dead
    } else {
        GameState::GameOver
    }
}

/// A new player: three lives and no points.
pub open spec fn new_player() -> Player {
    Player { lives: PLAYER_START_LIVES, score: 0 }
}

/// A ship launched: it costs a life.
pub open spec fn launch(p: Player) -> Player {
    Player { lives: (p.lives - 1) as u32, ..p }
}

/// A new player: three lives and no points.
pub fn create_player() -> (p: Player)
    ensures
        p == new_player(),
{
    Player { lives: PLAYER_START_LIVES, score: 0 }
}

impl Player {
    /// Adds the points of each message to the score.
    pub fn update_score(&mut self, msgs: &Vec<ScoreMessage>)
        requires
            old(self).score + score_sum(msgs@, msgs@.len() as int) <= u32::MAX,
        ensures
            final(self).score == old(self).score + score_sum(msgs@, msgs@.len() as int),
            final(self).lives == old(self).lives,
    {
        let mut i: usize = 0;
        while i < msgs.len()
            invariant
                i <= msgs@.len(),
                self.score == old(self).score + score_sum(msgs@, i as int),
                self.lives == old(self).lives,
                old(self).score + score_sum(msgs@, msgs@.len() as int) <= u32::MAX,
            decreases msgs@.len() - i,
        {
            proof {
                lemma_score_sum_monotone(msgs@, i as int + 1, msgs@.len() as int);
            }
            self.score = self.score + msgs[i].score;
            i = i + 1;
        }
    }

    /// Launches a ship when none is in play: it costs a life, and the new
    /// number of lives is announced.
    pub fn create_ship(&mut self, ship_in_play: bool) -> (e: Option<LifeEvent>)
        requires
            ship_in_play || old(self).lives > 0,
        ensures
            ship_in_play ==> e is None && *final(self) == *old(self),
            !ship_in_play ==> e == Some(LifeEvent { lives: final(self).lives })
                && *final(self) == launch(*old(self)),
            final(self).score == old(self).score,
    {
        if ship_in_play {
            return None;
        }
        self.lives = self.lives - 1;
        Some(LifeEvent::new(self.lives))
    }

    /// The phase that the loss of the ship leads to.
    pub fn check_player_health(&self) -> (s: GameState)
        ensures
            s == death_outcome(self.lives),
    {
        if self.lives > 0 {
            GameState::Dead
        } else {
            GameState::GameOver
        }
    }
}

proof fn lemma_score_sum_monotone(msgs: Seq<ScoreMessage>, i: int, j: int)
    requires
        0 <= i <= j <= msgs.len(),
    ensures
        score_sum(msgs, i) <= score_sum(msgs, j),
    decreases j - i,
{
    if i < j {
        lemma_score_sum_monotone(msgs, i, j - 1);
    }
}

/// Scores add up: the points of two batches of messages are the points of
/// the first plus those of the second, so applying them one after the other
/// gives the score of applying them at once.
pub proof fn law_score_batches_add(a: Seq<ScoreMessage>, b: Seq<ScoreMessage>)
    ensures
        score_sum(a + b, (a + b).len() as int) == score_sum(a, a.len() as int) + score_sum(
            b,
            b.len() as int,
        ),
    decreases b.len(),
{
    if b.len() > 0 {
        let b1 = b.drop_last();
        law_score_batches_add(a, b1);
        assert((a + b).drop_last() =~= a + b1);
        lemma_sum_prefix(a + b, (a + b).len() - 1);
        lemma_sum_prefix(b, b.len() - 1);
    } else {
        assert(a + b =~= a);
    }
}

proof fn lemma_sum_prefix(s: Seq<ScoreMessage>, n: int)
    requires
        0 <= n <= s.len(),
    ensures
        score_sum(s, n) == score_sum(s.subrange(0, n), n),
    decreases n,
{
    if n > 0 {
        lemma_sum_prefix(s, n - 1);
        lemma_sum_prefix(s.subrange(0, n), n - 1);
        assert(s.subrange(0, n).subrange(0, n - 1) =~= s.subrange(0, n - 1));
    }
}

/// A player after `k` ships were launched.
pub open spec fn launched(p: Player, k: nat) -> Player
    decreases k,
{
    if k == 0 {
        p
    } else {
        launch(launched(p, (k - 1) as nat))
    }
}

proof fn lemma_launched_lives(p: Player, k: nat)
    requires
        k <= p.lives,
    ensures
        launched(p, k).lives == p.lives - k,
    decreases k,
{
    if k > 0 {
        lemma_launched_lives(p, (k - 1) as nat);
    }
}

/// A new player gets three ships: over successive launches by `create_ship`
/// from a new player, each of the first three is allowed (a life is left),
/// and the loss of the `k`-th ship, checked by `check_player_health`, leaves
/// the player dead while fewer than three were launched and ends the game at
/// the third.
pub proof fn law_three_ships(k: nat)
    requires
        1 <= k <= PLAYER_START_LIVES,
    ensures
        launched(new_player(), (k - 1) as nat).lives > 0,
        death_outcome(launched(new_player(), k).lives) == (if k == PLAYER_START_LIVES {
            GameState::GameOver
        } else {
            GameState::Dead
        }),
{
    lemma_launched_lives(new_player(), (k - 1) as nat);
    lemma_launched_lives(new_player(), k);
}

/// Launching a ship costs exactly one life and keeps the score: the player
/// after a launch has one life fewer and the same points, and after `k`
/// launches from a player with at least `k` lives, `k` lives fewer and the
/// same points.
pub proof fn law_launch_keeps_score(p: Player, k: nat)
    requires
        p.lives > 0,
        k <= p.lives,
    ensures
        launch(p).score == p.score,
        launch(p).lives == p.lives - 1,
        launched(p, k).score == p.score,
        launched(p, k).lives == p.lives - k,
    decreases k,
{
    lemma_launched_lives(p, k);
    if k > 0 {
        law_launch_keeps_score(p, (k - 1) as nat);
    }
}

/// Whether the ship shoots and whether it raises its shield.
#[derive(Clone, Copy, Debug, PartialEq, Eq, Structural)]
pub struct ShipControls {
    pub shoot: bool,
    pub shield: bool,
}

/// The controls after the first `n` messages: each message of the shoot or
/// shield action sets that control to whether it was a press.
pub open spec fn controls_after(c: ShipControls, msgs: Seq<InputTriggerMessage>, n: int) -> ShipControls
    decreases n,
{
    if n <= 0 {
        c
    } else {
        let p = controls_after(c, msgs, n - 1);
        let m = msgs[n - 1];
        let pressed = m.input_type == InputEventType::Pressed;
        if m.action == InputEventAction::Shoot {
            ShipControls { shoot: pressed, ..p }
        } else if m.action == InputEventAction::Shield {
            ShipControls { shield: pressed, ..p }
        } else {
            p
        }
    }
}

impl ShipControls {
    pub fn new() -> (c: Self)
        ensures
            !c.shoot,
            !c.shield,
    {
        ShipControls { shoot: false, shield: false }
    }

    /// Follows the shoot and shield buttons.
    pub fn update_player_action(&mut self, msgs: &Vec<InputTriggerMessage>)
        ensures
            *final(self) == controls_after(*old(self), msgs@, msgs@.len() as int),
    {
        let mut i: usize = 0;
        while i < msgs.len()
            invariant
                i <= msgs@.len(),
                *self == controls_after(*old(self), msgs@, i as int),
            decreases msgs@.len() - i,
        {
            let m = msgs[i];
            if m.action == InputEventAction::Shoot {
                self.shoot = m.input_type == InputEventType::Pressed;
            }
            if m.action == InputEventAction::Shield {
                self.shield = m.input_type == InputEventType::Pressed;
            }
            i = i + 1;
        }
    }
}

/// The shoot and shield controls follow the latest message of their own
/// action: when message `i` is the last one of the shoot action, shooting
/// after the messages is whether that message was a press, whatever came
/// before it; with no shoot message at all, shooting is as it was. The same
/// holds of the shield.
pub proof fn law_controls_follow_latest(
    c: ShipControls,
    msgs: Seq<InputTriggerMessage>,
    n: int,
    i: int,
)
    requires
        0 <= n <= msgs.len(),
    ensures
        0 <= i < n && msgs[i].action == InputEventAction::Shoot && (forall|j: int|
            i < j < n ==> #[trigger] msgs[j].action != InputEventAction::Shoot) ==> controls_after(
            c,
            msgs,
            n,
        ).shoot == (msgs[i].input_type == InputEventType::Pressed),
        (forall|j: int| 0 <= j < n ==> #[trigger] msgs[j].action != InputEventAction::Shoot)
            ==> controls_after(c, msgs, n).shoot == c.shoot,
        0 <= i < n && msgs[i].action == InputEventAction::Shield && (forall|j: int|
            i < j < n ==> #[trigger] msgs[j].action != InputEventAction::Shield) ==> controls_after(
            c,
            msgs,
            n,
        ).shield == (msgs[i].input_type == InputEventType::Pressed),
        (forall|j: int| 0 <= j < n ==> #[trigger] msgs[j].action != InputEventAction::Shield)
            ==> controls_after(c, msgs, n).shield == c.shield,
    decreases n,
{
    if n > 0 {
        law_controls_follow_latest(c, msgs, n - 1, i);
    }
}

/// A shield entity and the ship it protects.
#[derive(Clone, Copy, Debug, PartialEq, Eq, Structural)]
pub struct ShieldLink {
    pub shield: u64,
    pub owner: u64,
}

/// The shields among the first `n` links whose owner is `owner`, in order.
pub open spec fn shields_of(links: Seq<ShieldLink>, owner: u64, n: int) -> Seq<u64>
    decreases n,
{
    if n <= 0 {
        Seq::empty()
    } else if links[n - 1].owner == owner {
        shields_of(links, owner, n - 1).push(links[n - 1].shield)
    } else {
        shields_of(links, owner, n - 1)
    }
}

/// When a ship's invulnerability runs out, the shields it owns go.
pub fn expired_shields(owner: u64, links: &Vec<ShieldLink>) -> (gone: Vec<u64>)
    ensures
        gone@ == shields_of(links@, owner, links@.len() as int),
{
    let mut gone: Vec<u64> = Vec::new();
    let mut i: usize = 0;
    while i < links.len()
        invariant
            i <= links@.len(),
            gone@ == shields_of(links@, owner, i as int),
        decreases links@.len() - i,
    {
        if links[i].owner == owner {
            gone.push(links[i].shield);
        }
        i = i + 1;
    }
    gone
}

} // verus!
