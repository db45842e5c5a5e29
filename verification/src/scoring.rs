use vstd::prelude::*;
use crate::combo::ComboState;
use crate::economy::Economy;
use crate::results::{stars, StarRating};
use crate::waves::WaveState;

verus! {

/// Accumulated score for the current level.
#[derive(Debug, Clone, Copy, PartialEq, Eq, Structural)]
pub struct ScoreState {
    pub points: u32,
}

impl Default for ScoreState {
    fn default() -> (s: Self)
        ensures
            s.points == 0,
    {
        ScoreState { points: 0 }
    }
}

impl ScoreState {
    /// Adds `points` to the score.
    pub fn add_points(&mut self, points: u32)
        requires
            old(self).points + points <= u32::MAX,
        ensures
            final(self).points == old(self).points + points,
    {
        self.points = self.points + points;
    }
}

/// Per-level statistics tracked for the star-rating system. `F` is the
/// scalar type of damage and time.
#[derive(Debug, Clone, Copy)]
pub struct LevelStats<F> {
    pub total_kills: u32,
    pub towers_built: u32,
    pub damage_dealt: F,
    pub max_combo: u32,
    pub time_elapsed: F,
}

impl<F: Copy> LevelStats<F> {
    /// The statistics once one more enemy has been killed.
    pub open spec fn with_kill(self) -> LevelStats<F> {
        LevelStats { total_kills: (self.total_kills + 1) as u32, ..self }
    }

    /// The statistics once one more tower has been built.
    pub open spec fn with_tower(self) -> LevelStats<F> {
        LevelStats { towers_built: (self.towers_built + 1) as u32, ..self }
    }
}

/// The bookkeeping of one enemy's death: its reward is paid out, the kill
/// combo grows, the kill count rises and the enemy leaves the wave's count.
/// (The score for the kill, which depends on the combo multiplier, is added
/// separately with `ScoreState::add_points`.)
pub fn register_enemy_death<F: Copy>(
    economy: &mut Economy,
    combo: &mut ComboState<F>,
    stats: &mut LevelStats<F>,
    wave_state: &mut WaveState<F>,
    reward: u32,
)
    requires
        old(economy).earn_fits(reward),
        old(combo).current < u32::MAX,
        old(stats).total_kills < u32::MAX,
    ensures
        *final(economy) == old(economy).after_earn(reward),
        *final(combo) == old(combo).after_kill(),
        *final(stats) == old(stats).with_kill(),
        *final(wave_state) == old(wave_state).with_removal(),
{
    economy.earn(reward);
    combo.register_kill();
    stats.total_kills = stats.total_kills + 1;
    wave_state.enemy_removed();
}

/// The number of stars earned: one for surviving, one for keeping the base
/// at least half healthy, one for an efficient economy together with a score
/// of at least 200.
pub open spec fn earned_stars(survived: bool, healthy: bool, efficient: bool, points: u32) -> nat {
    (if survived {
        1nat
    } else {
        0nat
    }) + (if healthy {
        1nat
    } else {
        0nat
    }) + (if efficient && points >= 200 {
        1nat
    } else {
        0nat
    })
}

/// Computes the star rating of a finished level from its three checks: the
/// base survived, the base kept at least half of its health, and the economy
/// was efficient (earned at least 1.2 times what was spent); the third star
/// also needs a score of at least 200.
pub fn compute_star_rating(
    base_survived: bool,
    base_healthy: bool,
    economy_efficient: bool,
    score: &ScoreState,
) -> (r: StarRating)
    ensures
        stars(r) == earned_stars(base_survived, base_healthy, economy_efficient, score.points),
{
    let mut stars: u8 = 0;
    // Star 1: survived
    if base_survived {
        stars = stars + 1;
    }
    // Star 2: good HP
    if base_healthy {
        stars = stars + 1;
    }
    // Star 3: efficiency and a good score
    if economy_efficient && score.points >= 200 {
        stars = stars + 1;
    }
    match stars {
        0 => StarRating::Zero,
        1 => StarRating::One,
        2 => StarRating::Two,
        _ => StarRating::Three,
    }
}

/// Meeting more of the checks never earns fewer stars, a higher score never
/// earns fewer stars, three stars need all three checks, and a base that kept
/// half its health with a score of 200 or more and an efficient economy gets
/// at least two stars whether or not it survived.
pub proof fn law_stars_monotone(
    s1: bool,
    h1: bool,
    e1: bool,
    p1: u32,
    s2: bool,
    h2: bool,
    e2: bool,
    p2: u32,
)
    ensures
        (s1 ==> s2) && (h1 ==> h2) && (e1 ==> e2) && p1 <= p2 ==> earned_stars(s1, h1, e1, p1)
            <= earned_stars(s2, h2, e2, p2),
        earned_stars(s1, h1, e1, p1) <= 3,
        earned_stars(s1, h1, e1, p1) == 3 <==> s1 && h1 && e1 && p1 >= 200,
        h1 && e1 && p1 >= 200 ==> earned_stars(s1, h1, e1, p1) >= 2,
{
}

/// Each check is worth one star on its own, independently of the others:
/// surviving adds exactly one star, keeping the base at least half healthy
/// adds exactly one star, and an efficient economy adds exactly one star when
/// the score is at least 200 and nothing below that. Surviving alone gives one
/// star; meeting no check gives none.
pub proof fn law_each_check_is_one_star(healthy: bool, survived: bool, efficient: bool, points: u32)
    ensures
        earned_stars(true, healthy, efficient, points) == earned_stars(false, healthy, efficient, points)
            + 1,
        earned_stars(survived, true, efficient, points) == earned_stars(survived, false, efficient, points)
            + 1,
        points >= 200 ==> earned_stars(survived, healthy, true, points) == earned_stars(
            survived,
            healthy,
            false,
            points,
        ) + 1,
        points < 200 ==> earned_stars(survived, healthy, true, points) == earned_stars(
            survived,
            healthy,
            false,
            points,
        ),
        earned_stars(true, false, false, points) == 1,
        earned_stars(false, false, false, points) == 0,
{
}

/// The final level score: kill points, plus the health bonus, plus 50 for a
/// level cleared in under two minutes, plus 5 per combo step of the best combo.
pub open spec fn final_score(points: u32, hp_bonus: u32, fast_clear: bool, max_combo: u32) -> int {
    points + hp_bonus + (if fast_clear {
        50int
    } else {
        0int
    }) + max_combo * 5
}

/// Final score formula combining kill points, base health, time and combo.
/// `hp_bonus` is the base's remaining health fraction in percent, and
/// `fast_clear` tells whether the level took under two minutes.
pub fn compute_final_score<F: Copy>(
    score: &ScoreState,
    hp_bonus: u32,
    fast_clear: bool,
    stats: &LevelStats<F>,
) -> (total: u32)
    requires
        final_score(score.points, hp_bonus, fast_clear, stats.max_combo) <= u32::MAX,
    ensures
        total == final_score(score.points, hp_bonus, fast_clear, stats.max_combo),
{
    let base_score = score.points;
    let time_bonus: u32 = if fast_clear {
        50
    } else {
        0
    };
    let combo_bonus = stats.max_combo * 5;
    base_score + hp_bonus + time_bonus + combo_bonus
}

/// The health bonus is added in full whatever the clear time; a fast clear
/// adds exactly 50; each step of the best combo adds exactly 5; a slow clear
/// scores exactly the points, the health bonus and five per combo step.
pub proof fn law_final_score_parts(points: u32, hp_bonus: u32, fast: bool, max_combo: u32)
    ensures
        final_score(points, hp_bonus, fast, max_combo) == final_score(points, 0, fast, max_combo)
            + hp_bonus,
        final_score(points, hp_bonus, true, max_combo) == final_score(points, hp_bonus, false, max_combo)
            + 50,
        final_score(points, hp_bonus, false, max_combo) == points + hp_bonus + 5 * max_combo,
        max_combo < u32::MAX ==> final_score(points, hp_bonus, fast, (max_combo + 1) as u32)
            == final_score(points, hp_bonus, fast, max_combo) + 5,
        final_score(points, 0, false, 0) == points,
{
}

/// Bonuses only ever add: the final score is at least the kill points, and
/// a faster clear or a better combo never lowers it.
pub proof fn law_final_score_bonuses_add(points: u32, hp_bonus: u32, fast: bool, c1: u32, c2: u32)
    ensures
        final_score(points, hp_bonus, fast, c1) >= points,
        final_score(points, hp_bonus, true, c1) >= final_score(points, hp_bonus, fast, c1),
        c1 <= c2 ==> final_score(points, hp_bonus, fast, c1) <= final_score(points, hp_bonus, fast, c2),
{
}

} // verus!
