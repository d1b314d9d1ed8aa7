use vstd::prelude::*;

verus! {

/// Hunger lost on every tick.
pub const HUNGER_DECAY: u8 = 2;

/// Happiness lost on every tick.
pub const HAPPINESS_DECAY: u8 = 1;

/// Hunger restored when the pet is fed.
pub const FEED_AMOUNT: u8 = 20;

/// Happiness restored when the pet is played with.
pub const PLAY_AMOUNT: u8 = 15;

/// Largest value either stat can take.
pub const STAT_MAX: u8 = 100;

/// The pet's mood, derived from its stats.
#[derive(Debug, Clone, Copy, PartialEq, Eq, Structural)]
pub enum Mood {
    Happy,
    Content,
    Sad,
    Miserable,
}

/// The simulated pet: a name fixed at creation and two bounded stats.
pub struct Pet {
    pub name: String,
    pub hunger: u8,
    pub happiness: u8,
}

/// The mood a pet with the given stats is in: the average of the two stats,
/// rounded down, is placed into one of four contiguous bands.
pub open spec fn mood_of(hunger: int, happiness: int) -> Mood {
    let avg = (hunger + happiness) / 2;
    if 70 <= avg && avg <= 100 {
        Mood::Happy
    } else if 40 <= avg && avg <= 69 {
        Mood::Content
    } else if 20 <= avg && avg <= 39 {
        Mood::Sad
    } else {
        Mood::Miserable
    }
}

/// The pet after one decay step: hunger and happiness each drop by their
/// decay amount, stopping at zero.
pub open spec fn ticked(p: Pet) -> Pet {
    Pet {
        name: p.name,
        hunger: if p.hunger >= HUNGER_DECAY {
            (p.hunger - HUNGER_DECAY) as u8
        } else {
            0
        },
        happiness: if p.happiness >= HAPPINESS_DECAY {
            (p.happiness - HAPPINESS_DECAY) as u8
        } else {
            0
        },
    }
}

/// The pet after being fed: hunger rises by the feed amount, capped at the
/// stat maximum.
pub open spec fn fed(p: Pet) -> Pet {
    Pet {
        name: p.name,
        hunger: if p.hunger + FEED_AMOUNT >= STAT_MAX {
            STAT_MAX
        } else {
            (p.hunger + FEED_AMOUNT) as u8
        },
        happiness: p.happiness,
    }
}

/// The pet after being played with: happiness rises by the play amount,
/// capped at the stat maximum.
pub open spec fn played(p: Pet) -> Pet {
    Pet {
        name: p.name,
        hunger: p.hunger,
        happiness: if p.happiness + PLAY_AMOUNT >= STAT_MAX {
            STAT_MAX
        } else {
            (p.happiness + PLAY_AMOUNT) as u8
        },
    }
}

impl Pet {
    /// A valid pet has a non-empty name and both stats within bounds.
    pub open spec fn wf(&self) -> bool {
        &&& self.name@.len() > 0
        &&& self.hunger <= STAT_MAX
        &&& self.happiness <= STAT_MAX
    }

    /// Create a new pet; both stats start at 80, which puts it in a happy
    /// mood.
    pub fn new(name: String) -> (pet: Self)
        requires
            name@.len() > 0,
        ensures
            pet.name == name,
            pet.hunger == 80,
            pet.happiness == 80,
            pet.wf(),
            mood_of(pet.hunger as int, pet.happiness as int) == Mood::Happy,
    {
        Pet { name, hunger: 80, happiness: 80 }
    }

    /// One decay step. Neither stat ever drops below zero: once a stat is
    /// smaller than its decay amount it lands exactly on zero and stays
    /// there.
    pub fn tick(&mut self)
        ensures
            *final(self) == ticked(*old(self)),
            final(self).hunger <= old(self).hunger,
            final(self).happiness <= old(self).happiness,
            old(self).hunger <= 1 ==> final(self).hunger == 0,
            old(self).happiness == 0 ==> final(self).happiness == 0,
            old(self).wf() ==> final(self).wf(),
    {
        self.hunger = self.hunger.saturating_sub(HUNGER_DECAY);
        self.happiness = self.happiness.saturating_sub(HAPPINESS_DECAY);
    }

    /// The pet's current mood, a pure function of the two stats.
    pub fn mood(&self) -> (m: Mood)
        ensures
            m == mood_of(self.hunger as int, self.happiness as int),
    {
        let avg: u16 = (self.hunger as u16 + self.happiness as u16) / 2;
        if 70 <= avg && avg <= 100 {
            Mood::Happy
        } else if 40 <= avg && avg <= 69 {
            Mood::Content
        } else if 20 <= avg && avg <= 39 {
            Mood::Sad
        } else {
            Mood::Miserable
        }
    }

    /// Feed the pet. Hunger never rises above the stat maximum.
    pub fn feed(&mut self)
        ensures
            *final(self) == fed(*old(self)),
            final(self).hunger <= STAT_MAX,
            final(self).happiness == old(self).happiness,
            old(self).wf() ==> final(self).wf(),
    {
        let h = self.hunger.saturating_add(FEED_AMOUNT);
        self.hunger = if h > STAT_MAX {
            STAT_MAX
        } else {
            h
        };
    }

    /// Play with the pet. Happiness never rises above the stat maximum.
    pub fn play(&mut self)
        ensures
            *final(self) == played(*old(self)),
            final(self).happiness <= STAT_MAX,
            final(self).hunger == old(self).hunger,
            old(self).wf() ==> final(self).wf(),
    {
        let p = self.happiness.saturating_add(PLAY_AMOUNT);
        self.happiness = if p > STAT_MAX {
            STAT_MAX
        } else {
            p
        };
    }
}

/// The four mood bands partition the whole valid stat range: for stats in
/// [0, 100] the average also lies in [0, 100], and the derived mood is the
/// one variant whose band holds the average — so the mood is always exactly
/// one of the four values, determined by the stats alone.
pub proof fn lemma_mood_classification(hunger: int, happiness: int)
    requires
        0 <= hunger <= 100,
        0 <= happiness <= 100,
    ensures
        ({
            let avg = (hunger + happiness) / 2;
            &&& 0 <= avg <= 100
            &&& (mood_of(hunger, happiness) == Mood::Happy <==> 70 <= avg)
            &&& (mood_of(hunger, happiness) == Mood::Content <==> 40 <= avg < 70)
            &&& (mood_of(hunger, happiness) == Mood::Sad <==> 20 <= avg < 40)
            &&& (mood_of(hunger, happiness) == Mood::Miserable <==> avg < 20)
        }),
{
}

} // verus!
