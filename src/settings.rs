use vstd::prelude::*;

verus! {

/// Number of visualization modes: plain, depth, normals.
pub const MODE_COUNT: i32 = 3;

/// The visualization mode selected by the player, owned by simulation state.
#[derive(Clone, Copy, Debug, PartialEq, Eq, Structural)]
pub struct ShowSettings {
    pub value: i32,
}

/// The per-frame parameters handed to the composite stage: two flags, each
/// zero or one.
#[derive(Clone, Copy, Debug, PartialEq, Eq, Structural)]
pub struct PostProcessSettings {
    pub show_depth: u32,
    pub show_normals: u32,
}

pub open spec fn next_mode(m: int) -> int {
    (m + 1) % (MODE_COUNT as int)
}

/// Flags for a mode: mode one shows depth, mode two shows normals, mode
/// zero shows neither.
pub open spec fn flags_for(m: int) -> PostProcessSettings {
    PostProcessSettings {
        show_depth: if m == 1 { 1 } else { 0 },
        show_normals: if m == 2 { 1 } else { 0 },
    }
}

/// Three mode changes in a row bring the mode back to where it started.
pub proof fn lemma_three_cycles(m: int)
    requires
        0 <= m < MODE_COUNT,
    ensures
        next_mode(next_mode(next_mode(m))) == m,
{
}

impl ShowSettings {
    pub open spec fn wf(&self) -> bool {
        0 <= self.value < MODE_COUNT
    }

    /// The starting mode: plain colour.
    pub fn new() -> (r: ShowSettings)
        ensures
            r.wf(),
            r.value == 0,
    {
        ShowSettings { value: 0 }
    }

    /// Advances to the next mode, wrapping after the last.
    pub fn cycle(&mut self)
        requires
            old(self).wf(),
        ensures
            final(self).wf(),
            final(self).value as int == next_mode(old(self).value as int),
    {
        self.value = if self.value + 1 >= MODE_COUNT {
            0
        } else {
            self.value + 1
        };
    }
}

impl PostProcessSettings {
    /// The flags that stand for `mode`.
    pub fn for_mode(mode: i32) -> (r: PostProcessSettings)
        requires
            0 <= mode < MODE_COUNT,
        ensures
            r == flags_for(mode as int),
    {
        PostProcessSettings {
            show_depth: if mode == 1 { 1 } else { 0 },
            show_normals: if mode == 2 { 1 } else { 0 },
        }
    }
}

impl Default for PostProcessSettings {
    fn default() -> (r: PostProcessSettings)
        ensures
            r == flags_for(0),
    {
        PostProcessSettings { show_depth: 0, show_normals: 0 }
    }
}

/// Handles one frame of the mode key: when `triggered`, the mode advances
/// once and every settings record is overwritten with the flags of the new
/// mode; otherwise nothing changes.
pub fn update_settings(
    show: &mut ShowSettings,
    settings: &mut Vec<PostProcessSettings>,
    triggered: bool,
)
    requires
        old(show).wf(),
    ensures
        final(show).wf(),
        !triggered ==> *final(show) == *old(show) && final(settings)@ == old(settings)@,
        triggered ==> final(show).value as int == next_mode(old(show).value as int),
        triggered ==> final(settings)@.len() == old(settings)@.len(),
        triggered ==> forall|i: int|
            0 <= i < final(settings)@.len() ==> final(settings)@[i] == flags_for(
                final(show).value as int,
            ),
{
    if !triggered {
        return;
    }
    show.cycle();
    let flags = PostProcessSettings::for_mode(show.value);
    let n = settings.len();
    let mut i: usize = 0;
    while i < n
        invariant
            0 <= i <= n,
            n == settings@.len(),
            n == old(settings)@.len(),
            flags == flags_for(show.value as int),
            forall|j: int| 0 <= j < i ==> settings@[j] == flags,
        decreases n - i,
    {
        settings.set(i, flags);
        i = i + 1;
    }
}

} // verus!
