//! The volume: the system mixer where there is one, else the player's own
//! gain. Levels are whole thousandths: 1000 is unity.
//!
//! Reading and writing the mixer is the caller's work; what it reads and
//! whether a write went through is handed in.
use vstd::prelude::*;

verus! {

/// Unity gain, and the top of the system's range.
pub const UNITY_LEVEL: u32 = 1000;

/// The top of the player's own gain.
pub const MAX_APP_GAIN: u32 = 1500;

/// The mixer is read at most once in this many milliseconds.
pub const REFRESH_PERIOD_MS: u64 = 150;

/// What the volume acts on.
#[derive(Clone, Copy, Debug, PartialEq, Eq, Structural)]
pub enum Backend {
    /// The system mixer.
    System,
    /// The gain that the player applies itself.
    AppGain,
}

/// Why a mixer's raw range cannot be used.
#[derive(Clone, Copy, Debug, PartialEq, Eq, Structural)]
pub enum RangeError {
    /// The range is empty or upside down.
    InvalidRange,
}

/// `level + delta`, kept within zero and `top`.
pub open spec fn spec_step_level(level: u32, delta: i32, top: u32) -> u32 {
    if level + delta < 0 {
        0
    } else if level + delta > top {
        top
    } else {
        (level + delta) as u32
    }
}

/// `level`, kept at or below `top`.
pub open spec fn spec_cap(level: u32, top: u32) -> u32 {
    if level > top {
        top
    } else {
        level
    }
}

/// The level that a raw mixer value stands for in a range from `min` to
/// `max`: its place in the range in thousandths, rounded down and kept
/// within the range.
pub open spec fn spec_level_of_raw(raw: i64, min: i64, max: i64) -> int {
    let place = (raw - min) * 1000 / (max - min);
    if place < 0 {
        0
    } else if place > 1000 {
        1000
    } else {
        place
    }
}

/// The raw mixer value for a level in a range from `min` to `max`, rounded
/// to the nearest step.
pub open spec fn spec_raw_of_level(level: u32, min: i64, max: i64) -> int {
    min + (spec_cap(level, UNITY_LEVEL) * (max - min) + 500) / 1000
}

fn step_level(level: u32, delta: i32, top: u32) -> (next: u32)
    ensures
        next == spec_step_level(level, delta, top),
{
    let moved: i64 = level as i64 + delta as i64;
    if moved < 0 {
        0
    } else if moved > top as i64 {
        top
    } else {
        moved as u32
    }
}

fn cap(level: u32, top: u32) -> (capped: u32)
    ensures
        capped == spec_cap(level, top),
{
    if level > top {
        top
    } else {
        level
    }
}

/// The level that a raw mixer value stands for.
pub fn level_of_raw(raw: i64, min: i64, max: i64) -> (level: Result<u32, RangeError>)
    ensures
        max <= min ==> level == Err::<u32, RangeError>(RangeError::InvalidRange),
        max > min ==> level is Ok && level->Ok_0 as int == spec_level_of_raw(raw, min, max),
{
    if max <= min {
        return Err(RangeError::InvalidRange);
    }
    let span: i128 = max as i128 - min as i128;
    let offset: i128 = raw as i128 - min as i128;
    if offset <= 0 {
        assert((raw - min) * 1000 / (max - min) <= 0) by (nonlinear_arith)
            requires
                raw - min <= 0,
                max - min > 0,
        ;
        return Ok(0);
    }
    let place: i128 = offset * 1000 / span;
    assert((raw - min) * 1000 / (max - min) >= 0) by (nonlinear_arith)
        requires
            raw - min > 0,
            max - min > 0,
    ;
    if place > 1000 {
        Ok(1000)
    } else {
        Ok(place as u32)
    }
}

/// The raw mixer value to write for a level.
pub fn raw_of_level(level: u32, min: i64, max: i64) -> (raw: Result<i64, RangeError>)
    ensures
        max <= min ==> raw == Err::<i64, RangeError>(RangeError::InvalidRange),
        max > min ==> raw is Ok && raw->Ok_0 as int == spec_raw_of_level(level, min, max),
        max > min ==> min <= raw->Ok_0 <= max,
{
    if max <= min {
        return Err(RangeError::InvalidRange);
    }
    let span: i128 = max as i128 - min as i128;
    let capped: i128 = cap(level, UNITY_LEVEL) as i128;
    assert(0 <= capped * span <= 1000 * span) by (nonlinear_arith)
        requires
            0 <= capped <= 1000,
            span > 0,
    ;
    let steps: i128 = (capped * span + 500) / 1000;
    let raw: i128 = min as i128 + steps;
    Ok(raw as i64)
}

/// The volume as it is controlled and shown.
pub struct VolumeControl {
    pub backend: Backend,
    /// The player's own gain, in thousandths.
    pub app_gain: u32,
    /// The level that is shown.
    pub display: u32,
    /// When the mixer was last read.
    pub last_refresh: u64,
}

impl VolumeControl {
    /// The levels are in range, and without a system mixer the player's own
    /// gain is what is shown.
    pub open spec fn wf(&self) -> bool {
        &&& self.app_gain <= MAX_APP_GAIN
        &&& self.backend == Backend::System ==> self.display <= UNITY_LEVEL
        &&& self.backend == Backend::AppGain ==> self.display == self.app_gain
    }

    /// A volume at unity. `system` is `None` without a system mixer, and
    /// else what reading the mixer gave, if anything.
    pub fn new(system: Option<Option<u32>>, now: u64) -> (volume: Self)
        ensures
            volume.wf(),
            volume.app_gain == UNITY_LEVEL,
            volume.last_refresh == now,
            volume.backend == if system is Some {
                Backend::System
            } else {
                Backend::AppGain
            },
            volume.display == match system {
                Some(Some(level)) => spec_cap(level, UNITY_LEVEL),
                _ => UNITY_LEVEL,
            },
    {
        match system {
            Some(reading) => {
                let display = match reading {
                    Some(level) => cap(level, UNITY_LEVEL),
                    None => UNITY_LEVEL,
                };
                VolumeControl {
                    backend: Backend::System,
                    app_gain: UNITY_LEVEL,
                    display,
                    last_refresh: now,
                }
            },
            None => VolumeControl {
                backend: Backend::AppGain,
                app_gain: UNITY_LEVEL,
                display: UNITY_LEVEL,
                last_refresh: now,
            },
        }
    }

    /// Whether the volume acts on the system mixer.
    pub fn is_system(&self) -> (system: bool)
        ensures
            system == (self.backend == Backend::System),
    {
        match self.backend {
            Backend::System => true,
            Backend::AppGain => false,
        }
    }

    /// What the shown level is a level of.
    pub fn label(&self) -> (text: &'static str)
        ensures
            text@ == match self.backend {
                Backend::System => "System (ALSA)"@,
                Backend::AppGain => "App gain"@,
            },
    {
        match self.backend {
            Backend::System => "System (ALSA)",
            Backend::AppGain => "App gain",
        }
    }

    /// The level that is shown: up to 1000 for the system mixer, up to 1500
    /// for the player's own gain.
    pub fn display(&self) -> (level: u32)
        ensures
            level == self.display,
    {
        self.display
    }

    /// The player's own gain, in thousandths.
    pub fn app_gain(&self) -> (level: u32)
        ensures
            level == self.app_gain,
    {
        self.app_gain
    }

    /// The gain that the engine applies: unity while the system mixer does
    /// the work, else the player's own gain.
    pub fn app_gain_scalar(&self) -> (level: u32)
        ensures
            level == match self.backend {
                Backend::System => UNITY_LEVEL,
                Backend::AppGain => self.app_gain,
            },
    {
        match self.backend {
            Backend::System => UNITY_LEVEL,
            Backend::AppGain => self.app_gain,
        }
    }

    /// Whether enough time has passed at `now` for the mixer to be read
    /// again.
    pub open spec fn spec_refresh_due(&self, now: u64) -> bool {
        now >= self.last_refresh && now - self.last_refresh >= REFRESH_PERIOD_MS
    }

    /// Whether enough time has passed at `now` for the mixer to be read
    /// again.
    pub fn refresh_due(&self, now: u64) -> (due: bool)
        ensures
            due == self.spec_refresh_due(now),
    {
        now >= self.last_refresh && now - self.last_refresh >= REFRESH_PERIOD_MS
    }

    fn fallback_to_app_gain(&mut self)
        requires
            old(self).wf(),
        ensures
            final(self).wf(),
            final(self).backend == Backend::AppGain,
            final(self).app_gain == old(self).app_gain,
            final(self).display == old(self).app_gain,
            final(self).last_refresh == old(self).last_refresh,
    {
        self.backend = Backend::AppGain;
        self.display = self.app_gain;
    }

    /// Brings the shown level up to date, at most once per refresh period.
    /// `reading` is what reading the system mixer gave; a mixer that cannot
    /// be read is given up for the player's own gain.
    pub fn refresh(&mut self, now: u64, reading: Option<u32>)
        requires
            old(self).wf(),
        ensures
            final(self).wf(),
            final(self).app_gain == old(self).app_gain,
            !old(self).spec_refresh_due(now) ==> *final(self) == *old(self),
            old(self).spec_refresh_due(now) ==> {
                &&& final(self).last_refresh == now
                &&& final(self).backend == if old(self).backend == Backend::System
                    && reading is Some {
                    Backend::System
                } else {
                    Backend::AppGain
                }
                &&& final(self).display == if old(self).backend == Backend::System
                    && reading is Some {
                    spec_cap(reading->0, UNITY_LEVEL)
                } else {
                    old(self).app_gain
                }
            },
    {
        if !self.refresh_due(now) {
            return;
        }
        self.last_refresh = now;
        match self.backend {
            Backend::System => {
                match reading {
                    Some(level) => {
                        self.display = cap(level, UNITY_LEVEL);
                    },
                    None => {
                        self.fallback_to_app_gain();
                    },
                }
            },
            Backend::AppGain => {
                self.display = self.app_gain;
            },
        }
    }

    /// The level to write to the system mixer for a step of `delta`, from
    /// what reading the mixer gave or else from the shown level. Without a
    /// system mixer there is nothing to write.
    pub fn system_target(&self, delta: i32, reading: Option<u32>) -> (target: Option<u32>)
        ensures
            target == match self.backend {
                Backend::System => Some(
                    spec_step_level(
                        match reading {
                            Some(level) => level,
                            None => self.display,
                        },
                        delta,
                        UNITY_LEVEL,
                    ),
                ),
                Backend::AppGain => None,
            },
    {
        match self.backend {
            Backend::System => {
                let current = match reading {
                    Some(level) => level,
                    None => self.display,
                };
                Some(step_level(current, delta, UNITY_LEVEL))
            },
            Backend::AppGain => None,
        }
    }

    /// Moves the volume by `delta`. With a system mixer, `written` is the
    /// level that was written to it, or `None` where the write failed: a
    /// written level is shown and the player's own gain goes back to unity,
    /// and a failed write gives the mixer up. Without a mixer, or after one
    /// was given up, the player's own gain moves by `delta` within its
    /// range.
    pub fn adjust(&mut self, delta: i32, written: Option<u32>)
        requires
            old(self).wf(),
        ensures
            final(self).wf(),
            final(self).last_refresh == old(self).last_refresh,
            old(self).backend == Backend::System && written is Some ==> {
                &&& final(self).backend == Backend::System
                &&& final(self).display == spec_cap(written->0, UNITY_LEVEL)
                &&& final(self).app_gain == UNITY_LEVEL
            },
            !(old(self).backend == Backend::System && written is Some) ==> {
                &&& final(self).backend == Backend::AppGain
                &&& final(self).app_gain == spec_step_level(
                    old(self).app_gain,
                    delta,
                    MAX_APP_GAIN,
                )
                &&& final(self).display == final(self).app_gain
            },
    {
        match (self.backend, written) {
            (Backend::System, Some(level)) => {
                self.display = cap(level, UNITY_LEVEL);
                self.app_gain = UNITY_LEVEL;
            },
            _ => {
                self.backend = Backend::AppGain;
                self.app_gain = step_level(self.app_gain, delta, MAX_APP_GAIN);
                self.display = self.app_gain;
            },
        }
    }
}

/// What is known of one element of the system mixer.
#[derive(Clone, Copy, Debug, PartialEq, Eq, Structural)]
pub struct MixerElement {
    /// Whether the element has a playback volume.
    pub has_playback_volume: bool,
    /// The lowest raw value of its volume.
    pub min: i64,
    /// The highest raw value of its volume.
    pub max: i64,
}

/// Which element of the mixer the volume acts on.
#[derive(Clone, Copy, Debug, PartialEq, Eq, Structural)]
pub enum ElementChoice {
    /// The element of this place among the well-known names.
    Named(usize),
    /// The element of this place among all elements of the mixer.
    Listed(usize),
}

/// A channel of a mixer element.
#[derive(Clone, Copy, Debug, PartialEq, Eq, Structural)]
pub enum Channel {
    FrontLeft,
    FrontRight,
    Mono,
}

/// Whether the volume can act on an element: it has a playback volume with
/// a range that is not empty.
pub open spec fn is_usable(element: MixerElement) -> bool {
    element.has_playback_volume && element.max > element.min
}

/// Whether the well-known name at `index` stands for a usable element.
pub open spec fn named_usable(named: Seq<Option<MixerElement>>, index: int) -> bool {
    0 <= index < named.len() && named[index] is Some && is_usable(named[index]->0)
}

/// Whether `choice` is the element to take: the first usable one among the
/// well-known names, in their order; where none of them is usable, the
/// first usable one among all elements.
pub open spec fn is_element_choice(
    named: Seq<Option<MixerElement>>,
    all: Seq<MixerElement>,
    choice: Option<ElementChoice>,
) -> bool {
    match choice {
        Some(ElementChoice::Named(index)) => {
            &&& named_usable(named, index as int)
            &&& forall|i: int| 0 <= i < index ==> !named_usable(named, i)
        },
        Some(ElementChoice::Listed(index)) => {
            &&& forall|i: int| 0 <= i < named.len() ==> !named_usable(named, i)
            &&& index < all.len()
            &&& is_usable(all[index as int])
            &&& forall|i: int| 0 <= i < index ==> !is_usable(#[trigger] all[i])
        },
        None => {
            &&& forall|i: int| 0 <= i < named.len() ==> !named_usable(named, i)
            &&& forall|i: int| 0 <= i < all.len() ==> !is_usable(#[trigger] all[i])
        },
    }
}

fn usable(element: &MixerElement) -> (fit: bool)
    ensures
        fit == is_usable(*element),
{
    element.has_playback_volume && element.max > element.min
}

/// Picks the mixer element that the volume acts on. `named` tells, for each
/// well-known name in the order of preference, what is known of the element
/// of that name, if there is one; `all` tells the same of every element of
/// the mixer.
pub fn choose_element(named: &Vec<Option<MixerElement>>, all: &Vec<MixerElement>) -> (choice:
    Option<ElementChoice>)
    ensures
        is_element_choice(named@, all@, choice),
{
    let mut i: usize = 0;
    while i < named.len()
        invariant
            i <= named@.len(),
            forall|k: int| 0 <= k < i ==> !named_usable(named@, k),
        decreases named@.len() - i,
    {
        match &named[i] {
            Some(element) => {
                if usable(element) {
                    return Some(ElementChoice::Named(i));
                }
            },
            None => {},
        }
        i += 1;
    }
    let mut j: usize = 0;
    while j < all.len()
        invariant
            j <= all@.len(),
            forall|k: int| 0 <= k < named@.len() ==> !named_usable(named@, k),
            forall|k: int| 0 <= k < j ==> !is_usable(#[trigger] all@[k]),
        decreases all@.len() - j,
    {
        if usable(&all[j]) {
            return Some(ElementChoice::Listed(j));
        }
        j += 1;
    }
    None
}

/// The channel that the volume is read from: the first that the element
/// has of front left, front right and mono, and front left where it has
/// none of them.
pub fn channel_to_read(has_front_left: bool, has_front_right: bool, has_mono: bool) -> (channel:
    Channel)
    ensures
        channel == if has_front_left {
            Channel::FrontLeft
        } else if has_front_right {
            Channel::FrontRight
        } else if has_mono {
            Channel::Mono
        } else {
            Channel::FrontLeft
        },
{
    if has_front_left {
        Channel::FrontLeft
    } else if has_front_right {
        Channel::FrontRight
    } else if has_mono {
        Channel::Mono
    } else {
        Channel::FrontLeft
    }
}

} // verus!
