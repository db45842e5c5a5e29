use vstd::prelude::*;
use crate::kinds::EnemyType;
use crate::search::{first_match, lemma_first_match_at, lemma_no_match};

verus! {

/// A single spawn group within a wave. `F` is the scalar type of time.
#[derive(Debug, Clone, Copy)]
pub struct WaveSpawnGroup<F> {
    pub enemy_type: EnemyType,
    pub count: u32,
    /// Seconds between each spawn in this group.
    pub spawn_interval: F,
}

/// Definition of a single wave.
#[derive(Debug, Clone)]
pub struct WaveDefinition<F> {
    pub wave_number: u32,
    pub groups: Vec<WaveSpawnGroup<F>>,
    pub is_boss_wave: bool,
    /// Difficulty multiplier applied to enemy HP and reward.
    pub difficulty_scale: F,
}

/// All wave definitions for a level.
#[derive(Debug, Clone)]
pub struct WavesConfig<F> {
    pub waves: Vec<WaveDefinition<F>>,
}

/// One enemy waiting in the spawn queue.
#[derive(Debug, Clone, Copy)]
pub struct SpawnEntry<F> {
    pub enemy_type: EnemyType,
    pub health_scale: F,
    pub spawn_interval: F,
}

/// The spawn queue of the active wave.
#[derive(Debug, Clone)]
pub struct SpawnQueue<F> {
    pub entries: Vec<SpawnEntry<F>>,
    pub current_index: usize,
    pub timer: F,
}

/// The queue entry of one enemy of group `g` in a wave of difficulty `scale`.
pub open spec fn entry_for<F>(g: WaveSpawnGroup<F>, scale: F) -> SpawnEntry<F> {
    SpawnEntry { enemy_type: g.enemy_type, health_scale: scale, spawn_interval: g.spawn_interval }
}

/// The spawn queue of a wave: each group in order, its enemy repeated `count`
/// times.
pub open spec fn expand<F>(groups: Seq<WaveSpawnGroup<F>>, scale: F) -> Seq<SpawnEntry<F>>
    decreases groups.len(),
{
    if groups.len() == 0 {
        Seq::empty()
    } else {
        let g = groups.last();
        expand(groups.drop_last(), scale) + Seq::new(g.count as nat, |k: int| entry_for(g, scale))
    }
}

/// The number of enemies the groups hold altogether.
pub open spec fn total_count<F>(groups: Seq<WaveSpawnGroup<F>>) -> nat
    decreases groups.len(),
{
    if groups.len() == 0 {
        0
    } else {
        total_count(groups.drop_last()) + groups.last().count as nat
    }
}

/// A wave's queue holds exactly as many enemies as its groups count.
pub proof fn law_queue_length<F>(groups: Seq<WaveSpawnGroup<F>>, scale: F)
    ensures
        expand(groups, scale).len() == total_count(groups),
    decreases groups.len(),
{
    if groups.len() > 0 {
        law_queue_length(groups.drop_last(), scale);
    }
}

/// Builds the spawn queue of a wave: every group in order, its enemy
/// repeated `count` times, each carrying the wave's difficulty scale and the
/// group's spawn interval.
pub fn spawn_entries<F: Copy>(def: &WaveDefinition<F>) -> (entries: Vec<SpawnEntry<F>>)
    ensures
        entries@ == expand(def.groups@, def.difficulty_scale),
{
    let mut entries: Vec<SpawnEntry<F>> = Vec::new();
    let ng = def.groups.len();
    let mut gi: usize = 0;
    while gi < ng
        invariant
            ng == def.groups@.len(),
            gi <= ng,
            entries@ == expand(def.groups@.take(gi as int), def.difficulty_scale),
        decreases ng - gi,
    {
        let g = def.groups[gi];
        let ghost base = entries@;
        let mut c: u32 = 0;
        while c < g.count
            invariant
                c <= g.count,
                g == def.groups@[gi as int],
                entries@ == base + Seq::new(c as nat, |k: int| entry_for(g, def.difficulty_scale)),
            decreases g.count - c,
        {
            entries.push(
                SpawnEntry {
                    enemy_type: g.enemy_type,
                    health_scale: def.difficulty_scale,
                    spawn_interval: g.spawn_interval,
                },
            );
            assert(Seq::new((c + 1) as nat, |k: int| entry_for(g, def.difficulty_scale)) =~= Seq::new(
                c as nat,
                |k: int| entry_for(g, def.difficulty_scale),
            ).push(entry_for(g, def.difficulty_scale)));
            c = c + 1;
        }
        assert(def.groups@.take(gi + 1).drop_last() =~= def.groups@.take(gi as int));
        assert(def.groups@.take(gi + 1).last() == g);
        gi = gi + 1;
    }
    assert(def.groups@.take(ng as int) =~= def.groups@);
    entries
}

/// The first position in `s` whose definition has number `n`.
pub open spec fn find_wave<F>(s: Seq<WaveDefinition<F>>, n: u32) -> Option<int> {
    first_match(s.map_values(|d: WaveDefinition<F>| d.wave_number == n))
}

/// The groups of wave `i` of the standard campaign: infantry always, tanks
/// from wave 3, air units from wave 5.
pub open spec fn standard_groups<F>(
    i: u32,
    infantry_interval: F,
    tank_interval: F,
    air_interval: F,
) -> Seq<WaveSpawnGroup<F>> {
    let infantry = seq![
        WaveSpawnGroup {
            enemy_type: EnemyType::Infantry,
            count: (3 + i) as u32,
            spawn_interval: infantry_interval,
        },
    ];
    let tanks = if i >= 3 {
        seq![
            WaveSpawnGroup {
                enemy_type: EnemyType::Tank,
                count: (1 + i / 3) as u32,
                spawn_interval: tank_interval,
            },
        ]
    } else {
        Seq::empty()
    };
    let air = if i >= 5 {
        seq![
            WaveSpawnGroup {
                enemy_type: EnemyType::AirUnit,
                count: (i / 2) as u32,
                spawn_interval: air_interval,
            },
        ]
    } else {
        Seq::empty()
    };
    infantry + tanks + air
}

impl<F: Copy> WavesConfig<F> {
    /// The standard ten-wave campaign: wave `i` (from 1) brings `3 + i`
    /// infantry, from wave 3 on also `1 + i / 3` tanks, and from wave 5 on
    /// also `i / 2` air units; every fifth wave is a boss wave. `scales[i - 1]`
    /// is the difficulty scale of wave `i`.
    pub fn standard(scales: &Vec<F>, infantry_interval: F, tank_interval: F, air_interval: F) -> (c:
        Self)
        requires
            scales@.len() == 10,
        ensures
            c.waves@.len() == 10,
            forall|k: int|
                0 <= k < 10 ==> {
                    &&& (#[trigger] c.waves@[k]).wave_number == k + 1
                    &&& c.waves@[k].is_boss_wave == ((k + 1) % 5 == 0)
                    &&& c.waves@[k].difficulty_scale == scales@[k]
                    &&& c.waves@[k].groups@ == standard_groups(
                        (k + 1) as u32,
                        infantry_interval,
                        tank_interval,
                        air_interval,
                    )
                },
    {
        let mut waves: Vec<WaveDefinition<F>> = Vec::new();
        let mut i: u32 = 1;
        while i <= 10
            invariant
                1 <= i <= 11,
                scales@.len() == 10,
                waves@.len() == i - 1,
                forall|k: int|
                    0 <= k < i - 1 ==> {
                        &&& (#[trigger] waves@[k]).wave_number == k + 1
                        &&& waves@[k].is_boss_wave == ((k + 1) % 5 == 0)
                        &&& waves@[k].difficulty_scale == scales@[k]
                        &&& waves@[k].groups@ == standard_groups(
                            (k + 1) as u32,
                            infantry_interval,
                            tank_interval,
                            air_interval,
                        )
                    },
            decreases 11 - i,
        {
            let scale = scales[(i - 1) as usize];
            let is_boss = i % 5 == 0;
            let mut groups: Vec<WaveSpawnGroup<F>> = Vec::new();
            groups.push(
                WaveSpawnGroup {
                    enemy_type: EnemyType::Infantry,
                    count: 3 + i,
                    spawn_interval: infantry_interval,
                },
            );
            if i >= 3 {
                groups.push(
                    WaveSpawnGroup {
                        enemy_type: EnemyType::Tank,
                        count: 1 + i / 3,
                        spawn_interval: tank_interval,
                    },
                );
            }
            if i >= 5 {
                groups.push(
                    WaveSpawnGroup {
                        enemy_type: EnemyType::AirUnit,
                        count: i / 2,
                        spawn_interval: air_interval,
                    },
                );
            }
            assert(groups@ =~= standard_groups(i, infantry_interval, tank_interval, air_interval));
            waves.push(
                WaveDefinition { wave_number: i, groups, is_boss_wave: is_boss, difficulty_scale: scale },
            );
            i = i + 1;
        }
        WavesConfig { waves }
    }

    /// The first definition numbered `wave_number`, if any.
    pub fn find(&self, wave_number: u32) -> (d: Option<&WaveDefinition<F>>)
        ensures
            d == match find_wave(self.waves@, wave_number) {
                Some(i) => Some(&self.waves@[i]),
                None => None,
            },
    {
        let n = self.waves.len();
        let mut i: usize = 0;
        while i < n
            invariant
                n == self.waves@.len(),
                i <= n,
                forall|j: int| 0 <= j < i ==> #[trigger] self.waves@[j].wave_number != wave_number,
            decreases n - i,
        {
            if self.waves[i].wave_number == wave_number {
                proof {
                    lemma_first_match_at(
                        self.waves@.map_values(|d: WaveDefinition<F>| d.wave_number == wave_number),
                        i as int,
                    );
                }
                return Some(&self.waves[i]);
            }
            i = i + 1;
        }
        proof {
            lemma_no_match(self.waves@.map_values(|d: WaveDefinition<F>| d.wave_number == wave_number));
        }
        None
    }
}

/// In the standard campaign every wave brings more enemies than the one
/// before it, and the boss waves are waves 5 and 10.
pub proof fn law_standard_waves_grow<F>(i: u32, ii: F, ti: F, ai: F)
    requires
        1 <= i < 10,
    ensures
        total_count(standard_groups(i, ii, ti, ai)) < total_count(standard_groups((i + 1) as u32, ii, ti, ai)),
        (i % 5 == 0) <==> (i == 5),
{
    let g = standard_groups(i, ii, ti, ai);
    let h = standard_groups((i + 1) as u32, ii, ti, ai);
    reveal_with_fuel(total_count, 4);
    assert(g.len() <= 3 && h.len() <= 3);
    if i >= 5 {
        assert(g.drop_last().drop_last().drop_last().len() == 0);
        assert(h.drop_last().drop_last().drop_last().len() == 0);
    } else if i >= 3 {
        assert(g.drop_last().drop_last().len() == 0);
        if i + 1 >= 5 {
            assert(h.drop_last().drop_last().drop_last().len() == 0);
        } else {
            assert(h.drop_last().drop_last().len() == 0);
        }
    } else {
        assert(g.drop_last().len() == 0);
        if i + 1 >= 3 {
            assert(h.drop_last().drop_last().len() == 0);
        } else {
            assert(h.drop_last().len() == 0);
        }
    }
}

impl<F: Copy> SpawnQueue<F> {
    /// Whether every queued enemy has been handed out.
    pub fn all_spawned(&self) -> (b: bool)
        ensures
            b == (self.current_index >= self.entries@.len()),
    {
        self.current_index >= self.entries.len()
    }

    /// Hands out the next queued enemy, in queue order, and restarts the
    /// spawn timer with that enemy's interval; `None` once the queue is spent.
    pub fn take_next(&mut self) -> (e: Option<SpawnEntry<F>>)
        ensures
            final(self).entries@ == old(self).entries@,
            old(self).current_index < old(self).entries@.len() ==> {
                &&& e == Some(old(self).entries@[old(self).current_index as int])
                &&& final(self).current_index == old(self).current_index + 1
                &&& final(self).timer == old(self).entries@[old(self).current_index as int].spawn_interval
            },
            old(self).current_index >= old(self).entries@.len() ==> {
                &&& e is None
                &&& final(self).current_index == old(self).current_index
                &&& final(self).timer == old(self).timer
            },
    {
        if self.current_index < self.entries.len() {
            let entry = self.entries[self.current_index];
            self.current_index = self.current_index + 1;
            self.timer = entry.spawn_interval;
            Some(entry)
        } else {
            None
        }
    }
}

/// Tracks the progress of enemy waves.
#[derive(Debug, Clone, Copy)]
pub struct WaveState<F> {
    pub current_wave: u32,
    pub total_waves: u32,
    pub enemies_spawned: u32,
    pub enemies_alive: u32,
    pub wave_active: bool,
    pub spawn_timer: F,
    pub between_wave_timer: F,
    pub wave_complete: bool,
}

impl<F: Copy> WaveState<F> {
    /// The state once the next wave has started.
    pub open spec fn started(self) -> WaveState<F> {
        WaveState {
            current_wave: (self.current_wave + 1) as u32,
            enemies_spawned: 0,
            wave_active: true,
            wave_complete: false,
            ..self
        }
    }

    /// The state once one more enemy is on the field.
    pub open spec fn with_spawn(self) -> WaveState<F> {
        WaveState {
            enemies_spawned: (self.enemies_spawned + 1) as u32,
            enemies_alive: (self.enemies_alive + 1) as u32,
            ..self
        }
    }

    /// The state once one enemy has left the field; the count stops at zero.
    pub open spec fn with_removal(self) -> WaveState<F> {
        WaveState {
            enemies_alive: if self.enemies_alive > 0 {
                (self.enemies_alive - 1) as u32
            } else {
                0
            },
            ..self
        }
    }

    /// Whether the active wave is over: all of its queue spawned, none alive.
    pub open spec fn cleared(self, queue: SpawnQueue<F>) -> bool {
        self.wave_active && queue.current_index >= queue.entries@.len() && self.enemies_alive == 0
    }

    /// The state once the active wave has ended, pausing `pause` before the next.
    pub open spec fn ended(self, pause: F) -> WaveState<F> {
        WaveState { wave_active: false, wave_complete: true, between_wave_timer: pause, ..self }
    }

    /// Whether the level is won.
    pub open spec fn won(self) -> bool {
        self.current_wave >= self.total_waves && self.wave_complete && self.enemies_alive == 0
    }

    /// Starts the wave after the current one, if the config defines it:
    /// the wave counter moves on by one, the wave becomes active and not
    /// complete, and its spawn queue comes back. Without a definition nothing
    /// changes.
    pub fn start_next_wave(&mut self, config: &WavesConfig<F>) -> (queue: Option<Vec<SpawnEntry<F>>>)
        requires
            old(self).current_wave < u32::MAX,
        ensures
            match find_wave(config.waves@, (old(self).current_wave + 1) as u32) {
                Some(i) => {
                    &&& (queue matches Some(q) && q@ == expand(
                        config.waves@[i].groups@,
                        config.waves@[i].difficulty_scale,
                    ))
                    &&& *final(self) == old(self).started()
                },
                None => queue is None && *final(self) == *old(self),
            },
    {
        let next_wave = self.current_wave + 1;
        match config.find(next_wave) {
            Some(def) => {
                let entries = spawn_entries(def);
                self.current_wave = next_wave;
                self.enemies_spawned = 0;
                self.wave_active = true;
                self.wave_complete = false;
                Some(entries)
            },
            None => None,
        }
    }

    /// Starts the next wave when none is active and the pause between waves
    /// is over (`pause_over`), exactly as `start_next_wave` does; otherwise
    /// nothing changes and no queue comes back.
    pub fn start_wave_if_due(&mut self, config: &WavesConfig<F>, pause_over: bool) -> (queue: Option<
        Vec<SpawnEntry<F>>,
    >)
        requires
            !old(self).wave_active && pause_over ==> old(self).current_wave < u32::MAX,
        ensures
            old(self).wave_active || !pause_over ==> queue is None && *final(self) == *old(self),
            !old(self).wave_active && pause_over ==> match find_wave(
                config.waves@,
                (old(self).current_wave + 1) as u32,
            ) {
                Some(i) => {
                    &&& (queue matches Some(q) && q@ == expand(
                        config.waves@[i].groups@,
                        config.waves@[i].difficulty_scale,
                    ))
                    &&& *final(self) == old(self).started()
                },
                None => queue is None && *final(self) == *old(self),
            },
    {
        if self.wave_active || !pause_over {
            return None;
        }
        self.start_next_wave(config)
    }

    /// Whether the spawn step has work: a wave is active and its queue is
    /// not yet spent.
    pub fn spawning(&self, queue: &SpawnQueue<F>) -> (b: bool)
        ensures
            b == (self.wave_active && queue.current_index < queue.entries@.len()),
    {
        self.wave_active && !queue.all_spawned()
    }

    /// Counts one more enemy brought onto the field.
    pub fn enemy_spawned(&mut self)
        requires
            old(self).enemies_spawned < u32::MAX,
            old(self).enemies_alive < u32::MAX,
        ensures
            *final(self) == old(self).with_spawn(),
    {
        self.enemies_spawned = self.enemies_spawned + 1;
        self.enemies_alive = self.enemies_alive + 1;
    }

    /// Counts one enemy gone from the field (killed or through to the base);
    /// the count never drops below zero.
    pub fn enemy_removed(&mut self)
        ensures
            *final(self) == old(self).with_removal(),
    {
        self.enemies_alive = self.enemies_alive.saturating_sub(1);
    }

    /// Ends the active wave once its whole queue has been spawned and no enemy
    /// is left alive, starting the pause of `pause` before the next wave.
    pub fn complete_if_cleared(&mut self, queue: &SpawnQueue<F>, pause: F)
        ensures
            old(self).cleared(*queue) ==> *final(self) == old(self).ended(pause),
            !old(self).cleared(*queue) ==> *final(self) == *old(self),
    {
        if !self.wave_active {
            return;
        }
        let all_spawned = queue.all_spawned();
        if all_spawned && self.enemies_alive == 0 {
            self.wave_active = false;
            self.wave_complete = true;
            self.between_wave_timer = pause;
        }
    }

    /// Whether the level is won: the last wave has been reached and
    /// completed, and no enemy remains.
    pub fn level_complete(&self) -> (b: bool)
        ensures
            b == self.won(),
    {
        self.current_wave >= self.total_waves && self.wave_complete && self.enemies_alive == 0
    }
}

/// A wave is only ever marked complete once it is active, its whole queue
/// has been handed out and the field is empty (and then always); a freshly
/// started wave is active and not complete; and the level is won exactly when
/// the last wave has been reached and completed with no enemy alive.
pub proof fn law_wave_completion<F: Copy>(w: WaveState<F>, queue: SpawnQueue<F>, pause: F)
    ensures
        w.cleared(queue) ==> w.ended(pause).wave_complete && !w.ended(pause).wave_active
            && w.ended(pause).enemies_alive == 0,
        w.current_wave < u32::MAX ==> w.started().wave_active && !w.started().wave_complete
            && w.started().current_wave == w.current_wave + 1,
        w.won() ==> w.enemies_alive == 0 && w.wave_complete,
        w.won() ==> w.current_wave >= w.total_waves,
        w.current_wave < w.total_waves ==> !w.won(),
        w.current_wave >= w.total_waves && w.wave_complete && w.enemies_alive == 0 ==> w.won(),
        w.cleared(queue) ==> w.wave_active && queue.current_index >= queue.entries@.len()
            && w.enemies_alive == 0,
        queue.current_index < queue.entries@.len() ==> !w.cleared(queue),
        w.enemies_alive > 0 || !w.wave_active ==> !w.cleared(queue),
        w.wave_active && queue.current_index >= queue.entries@.len() && w.enemies_alive == 0
            ==> w.cleared(queue),
        w.with_removal().enemies_alive <= w.enemies_alive,
        w.enemies_alive > 0 ==> w.with_removal().enemies_alive + 1 == w.enemies_alive,
        w.enemies_spawned < u32::MAX && w.enemies_alive < u32::MAX ==> w.with_spawn().enemies_alive
            == w.enemies_alive + 1 && w.with_spawn().enemies_spawned == w.enemies_spawned + 1
            && w.with_spawn().current_wave == w.current_wave,
{
}

} // verus!
