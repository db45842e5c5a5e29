use vstd::prelude::*;
use crate::search::{first_match, lemma_first_match};

verus! {

/// Star rating result for a completed level.
#[derive(Debug, Clone, Copy, PartialEq, Eq, Hash, Structural)]
pub enum StarRating {
    Zero,
    One,
    Two,
    Three,
}

/// The number of stars a rating stands for.
pub open spec fn stars(r: StarRating) -> nat {
    match r {
        StarRating::Zero => 0,
        StarRating::One => 1,
        StarRating::Two => 2,
        StarRating::Three => 3,
    }
}

/// The better of two ratings.
pub open spec fn better(a: StarRating, b: StarRating) -> StarRating {
    if stars(b) > stars(a) {
        b
    } else {
        a
    }
}

/// The number of stars of `r`.
pub fn rating_value(r: StarRating) -> (v: u8)
    ensures
        v == stars(r),
{
    match r {
        StarRating::Zero => 0,
        StarRating::One => 1,
        StarRating::Two => 2,
        StarRating::Three => 3,
    }
}

/// The text shown for a rating on the level-complete screen.
pub open spec fn spec_rating_label(r: StarRating) -> Seq<char> {
    match r {
        StarRating::Zero => "No Stars"@,
        StarRating::One => "\u{2605}"@,
        StarRating::Two => "\u{2605}\u{2605}"@,
        StarRating::Three => "\u{2605}\u{2605}\u{2605}"@,
    }
}

/// The text shown for a rating on the level-complete screen: one star glyph
/// per star, or "No Stars".
pub fn rating_label(r: StarRating) -> (label: &'static str)
    ensures
        label@ == spec_rating_label(r),
{
    match r {
        StarRating::Zero => "No Stars",
        StarRating::One => "\u{2605}",
        StarRating::Two => "\u{2605}\u{2605}",
        StarRating::Three => "\u{2605}\u{2605}\u{2605}",
    }
}

/// Which entries are for `level`.
pub open spec fn level_flags(s: Seq<(u32, StarRating)>, level: u32) -> Seq<bool> {
    s.map_values(|e: (u32, StarRating)| e.0 == level)
}

/// The first position whose entry is for `level`.
pub open spec fn find_level(s: Seq<(u32, StarRating)>, level: u32) -> Option<int> {
    first_match(level_flags(s, level))
}

/// The rating stored for `level`, if any.
pub open spec fn rating_of(s: Seq<(u32, StarRating)>, level: u32) -> Option<StarRating> {
    match find_level(s, level) {
        Some(i) => Some(s[i].1),
        None => None,
    }
}

/// The stored results after recording `rating` for `level`: the first entry
/// for the level keeps the better of its rating and the new one; a level seen
/// for the first time gets a new entry at the end.
pub open spec fn recorded(s: Seq<(u32, StarRating)>, level: u32, rating: StarRating) -> Seq<
    (u32, StarRating),
> {
    match find_level(s, level) {
        Some(i) => if stars(rating) > stars(s[i].1) {
            s.update(i, (level, rating))
        } else {
            s
        },
        None => s.push((level, rating)),
    }
}

/// No level has two entries.
pub open spec fn levels_unique(s: Seq<(u32, StarRating)>) -> bool {
    forall|i: int, j: int| 0 <= i < j < s.len() ==> #[trigger] s[i].0 != #[trigger] s[j].0
}

/// Current level / progression information.
#[derive(Debug, Clone, Copy, PartialEq, Eq, Structural)]
pub struct GameLevel {
    pub current_level: u32,
    pub levels_unlocked: u32,
    pub total_levels: u32,
}

impl Default for GameLevel {
    fn default() -> (g: Self)
        ensures
            g == (GameLevel { current_level: 1, levels_unlocked: 1, total_levels: 10 }),
    {
        GameLevel { current_level: 1, levels_unlocked: 1, total_levels: 10 }
    }
}

/// Stored results for each completed level.
#[derive(Debug, Clone)]
pub struct LevelResults {
    pub ratings: Vec<(u32, StarRating)>,
}

impl Default for LevelResults {
    fn default() -> (r: Self)
        ensures
            r.ratings@ == Seq::<(u32, StarRating)>::empty(),
    {
        LevelResults { ratings: Vec::new() }
    }
}

/// Lookup by level finds the first entry for the level, or proves there is none.
pub proof fn lemma_find_level(s: Seq<(u32, StarRating)>, level: u32)
    ensures
        match find_level(s, level) {
            Some(k) => 0 <= k < s.len() && s[k].0 == level && forall|m: int|
                0 <= m < k ==> #[trigger] s[m].0 != level,
            None => forall|m: int| 0 <= m < s.len() ==> #[trigger] s[m].0 != level,
        },
{
    let flags = level_flags(s, level);
    lemma_first_match(flags);
    assert forall|m: int| 0 <= m < s.len() implies flags[m] == (#[trigger] s[m].0 == level) by {}
}

/// Two sequences whose level columns agree have their first entry for any
/// level at the same place.
proof fn lemma_find_same_levels(s: Seq<(u32, StarRating)>, t: Seq<(u32, StarRating)>, level: u32)
    requires
        s.len() == t.len(),
        forall|m: int| 0 <= m < s.len() ==> #[trigger] s[m].0 == t[m].0,
    ensures
        find_level(s, level) == find_level(t, level),
{
    assert(level_flags(s, level) =~= level_flags(t, level));
}

impl LevelResults {
    /// Records `rating` for `level`, keeping the best rating ever recorded for it.
    pub fn record(&mut self, level: u32, rating: StarRating)
        ensures
            final(self).ratings@ == recorded(old(self).ratings@, level, rating),
    {
        let n = self.ratings.len();
        let mut i: usize = 0;
        while i < n
            invariant
                n == self.ratings@.len(),
                self.ratings@ == old(self).ratings@,
                i <= n,
                forall|m: int| 0 <= m < i ==> #[trigger] self.ratings@[m].0 != level,
            decreases n - i,
        {
            let entry = self.ratings[i];
            if entry.0 == level {
                proof {
                    lemma_find_level(self.ratings@, level);
                }
                // Keep the best rating
                if rating_value(rating) > rating_value(entry.1) {
                    self.ratings.set(i, (entry.0, rating));
                }
                return;
            }
            i = i + 1;
        }
        proof {
            lemma_find_level(self.ratings@, level);
        }
        self.ratings.push((level, rating));
    }
}

/// Recording keeps the best rating per level: afterwards the level holds the
/// better of its old rating and the new one (or the new one if it had none),
/// every other level holds what it held, recording the same result twice
/// changes nothing more than recording it once, and no level ever gets two
/// entries.
pub proof fn law_record_keeps_best(
    s: Seq<(u32, StarRating)>,
    level: u32,
    rating: StarRating,
    other: u32,
)
    ensures
        rating_of(recorded(s, level, rating), level) == match rating_of(s, level) {
            Some(old_rating) => Some(better(old_rating, rating)),
            None => Some(rating),
        },
        other != level ==> rating_of(recorded(s, level, rating), other) == rating_of(s, other),
        recorded(recorded(s, level, rating), level, rating) == recorded(s, level, rating),
        levels_unique(s) ==> levels_unique(recorded(s, level, rating)),
{
    lemma_find_level(s, level);
    let t = recorded(s, level, rating);
    match find_level(s, level) {
        Some(k) => {
            assert forall|m: int| 0 <= m < s.len() implies #[trigger] s[m].0 == t[m].0 by {}
            lemma_find_same_levels(s, t, level);
            lemma_find_same_levels(s, t, other);
            lemma_find_level(s, other);
            lemma_find_level(t, level);
            if stars(rating) > stars(s[k].1) {
                assert(t[k].1 == rating);
            }
        },
        None => {
            lemma_find_level(t, level);
            lemma_find_level(t, other);
            lemma_find_level(s, other);
            assert(t[s.len() as int].0 == level);
            match find_level(t, level) {
                Some(k2) => {
                    if k2 < s.len() {
                        assert(s[k2].0 == level);
                    }
                },
                None => {},
            }
            match find_level(s, other) {
                Some(k3) => {
                    assert(t[k3] == s[k3]);
                    match find_level(t, other) {
                        Some(k4) => {
                            if k4 < k3 {
                                assert(t[k4] == s[k4]);
                            } else if k3 < k4 {
                            }
                        },
                        None => {},
                    }
                },
                None => {
                    match find_level(t, other) {
                        Some(k4) => {
                            if k4 < s.len() {
                                assert(t[k4] == s[k4]);
                            }
                        },
                        None => {},
                    }
                },
            }
            if levels_unique(s) {
                assert forall|i: int, j: int| 0 <= i < j < t.len() implies #[trigger] t[i].0
                    != #[trigger] t[j].0 by {
                    if j == s.len() {
                        assert(t[i] == s[i]);
                    } else {
                        assert(t[i] == s[i] && t[j] == s[j]);
                    }
                }
            }
        },
    }
    lemma_find_level(t, level);
}

} // verus!
