//! Whether the active keyboard layout has an AltGr key, and the modifier
//! state read from the keyboard.
//!
//! The OS encodes AltGr as Ctrl+Alt held together. A layout is taken to
//! have AltGr when some key gives two different characters with and without
//! Ctrl+Alt held. Finding out means looking up the character of every key code twice,
//! which only the OS can do; `AltGrDetector` decides which key to look up
//! next and what the answers mean, and caches the verdict per layout.
use vstd::prelude::*;

use crate::keyboard::{ModifierState, consistent_bits};

verus! {

/// The highest key code that the probe looks up.
pub const LAST_PROBED_KEY: u32 = 255;

/// What the detector asks for next.
#[derive(Debug, Clone, Copy, PartialEq, Eq, Structural, Hash)]
pub enum AltGrStep {
    /// The answer for the layout.
    Known(bool),
    /// Look up the character of this key code with no modifier and with
    /// Ctrl+Alt held, and hand both to `AltGrDetector::feed`.
    Probe(u32),
}

/// Whether a key's two characters show an AltGr layer: both defined and
/// different.
pub open spec fn characters_differ(plain: Option<char>, altgr: Option<char>) -> bool {
    match (plain, altgr) {
        (Some(a), Some(b)) => a != b,
        _ => false,
    }
}

/// The AltGr verdict, cached for the last layout asked about.
pub struct AltGrDetector {
    active_layout: u64,
    uses_altgr: bool,
    pending: Option<u32>,
    probed: Ghost<Seq<(Option<char>, Option<char>)>>,
}

impl AltGrDetector {
    #[verifier::type_invariant]
    spec fn scan_is_sound(self) -> bool {
        match self.pending {
            Some(k) => k <= LAST_PROBED_KEY && k as int == self.probed@.len() && forall|i: int|
                0 <= i < self.probed@.len() ==> !characters_differ(
                    #[trigger] self.probed@[i].0,
                    self.probed@[i].1,
                ),
            None => true,
        }
    }

    /// The layout that the cache belongs to.
    pub closed spec fn layout(self) -> u64 {
        self.active_layout
    }

    /// The cached verdict.
    pub closed spec fn cached(self) -> bool {
        self.uses_altgr
    }

    /// The key code whose characters the running probe waits for.
    pub closed spec fn awaiting(self) -> Option<u32> {
        self.pending
    }

    /// The characters the running (or last) probe has received, by key code.
    pub closed spec fn probed(self) -> Seq<(Option<char>, Option<char>)> {
        self.probed@
    }

    /// What a query for layout `hkl` answers: the cached verdict when the
    /// layout is the one cached, else the first probe.
    pub open spec fn query_step(self, hkl: u64) -> AltGrStep {
        if hkl == self.layout() {
            AltGrStep::Known(self.cached())
        } else {
            AltGrStep::Probe(0)
        }
    }

    /// An empty cache, which belongs to the null layout handle and says no.
    pub fn new() -> (r: AltGrDetector)
        ensures
            r.layout() == 0,
            !r.cached(),
            r.awaiting().is_none(),
    {
        AltGrDetector {
            active_layout: 0,
            uses_altgr: false,
            pending: None,
            probed: Ghost(Seq::empty()),
        }
    }

    /// Asks whether layout `hkl` uses AltGr. The cache is swapped to `hkl`;
    /// when it already held `hkl` the cached verdict comes back and nothing
    /// changes, else a probe starts at key code 0.
    pub fn layout_uses_altgr(&mut self, hkl: u64) -> (r: AltGrStep)
        ensures
            r == old(self).query_step(hkl),
            final(self).layout() == hkl,
            hkl == old(self).layout() ==> *final(self) == *old(self),
            hkl != old(self).layout() ==> final(self).awaiting() == Some(0u32) && final(self).probed().len() == 0 && final(self).cached() == old(self).cached(),
    {
        let old_layout = self.active_layout;
        if hkl == old_layout {
            return AltGrStep::Known(self.uses_altgr);
        }
        *self = AltGrDetector {
            active_layout: hkl,
            uses_altgr: self.uses_altgr,
            pending: Some(0),
            probed: Ghost(Seq::empty()),
        };
        AltGrStep::Probe(0)
    }

    /// Hands over the characters of the key code the probe waits for.
    /// The probe stops at the first key whose characters differ (the
    /// layout uses AltGr) or after the last key code (it does not); the
    /// verdict is then cached.
    pub fn feed(&mut self, plain: Option<char>, altgr: Option<char>) -> (r: AltGrStep)
        ensures
            final(self).layout() == old(self).layout(),
            old(self).awaiting().is_none() ==> r == AltGrStep::Known(old(self).cached())
                && *final(self) == *old(self),
            old(self).awaiting() matches Some(k) ==> {
                &&& final(self).probed() == old(self).probed().push((plain, altgr))
                &&& characters_differ(plain, altgr) ==> r == AltGrStep::Known(true)
                    && final(self).cached() && final(self).awaiting().is_none()
                &&& !characters_differ(plain, altgr) && k == LAST_PROBED_KEY ==> r
                    == AltGrStep::Known(false) && !final(self).cached() && final(self).awaiting().is_none()
                &&& !characters_differ(plain, altgr) && k < LAST_PROBED_KEY ==> r
                    == AltGrStep::Probe((k + 1) as u32) && final(self).awaiting() == Some(
                    (k + 1) as u32,
                ) && final(self).cached() == old(self).cached()
            },
            old(self).awaiting() is Some ==> (r matches AltGrStep::Known(b) ==> (b <==> exists|i: int|
                0 <= i < final(self).probed().len() && characters_differ(
                    #[trigger] final(self).probed()[i].0,
                    final(self).probed()[i].1,
                ))),
            old(self).awaiting() is Some && r == AltGrStep::Known(false) ==> final(self).probed().len() == LAST_PROBED_KEY + 1,
    {
        proof {
            use_type_invariant(&*self);
        }
        let k = match self.pending {
            None => return AltGrStep::Known(self.uses_altgr),
            Some(k) => k,
        };
        let ghost probed = self.probed@.push((plain, altgr));
        let differ = match (plain, altgr) {
            (Some(a), Some(b)) => a != b,
            _ => false,
        };
        if differ {
            proof {
                assert(characters_differ(probed[probed.len() - 1].0, probed[probed.len() - 1].1));
            }
            *self = AltGrDetector {
                active_layout: self.active_layout,
                uses_altgr: true,
                pending: None,
                probed: Ghost(probed),
            };
            AltGrStep::Known(true)
        } else if k == LAST_PROBED_KEY {
            proof {
                assert forall|i: int| 0 <= i < probed.len() implies !characters_differ(
                    #[trigger] probed[i].0,
                    probed[i].1,
                ) by {
                    if i < probed.len() - 1 {
                        assert(probed[i] == self.probed@[i]);
                    }
                }
            }
            *self = AltGrDetector {
                active_layout: self.active_layout,
                uses_altgr: false,
                pending: None,
                probed: Ghost(probed),
            };
            AltGrStep::Known(false)
        } else {
            proof {
                assert forall|i: int| 0 <= i < probed.len() implies !characters_differ(
                    #[trigger] probed[i].0,
                    probed[i].1,
                ) by {
                    if i < probed.len() - 1 {
                        assert(probed[i] == self.probed@[i]);
                    }
                }
            }
            *self = AltGrDetector {
                active_layout: self.active_layout,
                uses_altgr: self.uses_altgr,
                pending: Some(k + 1),
                probed: Ghost(probed),
            };
            AltGrStep::Probe(k + 1)
        }
    }
}

/// A second query for the layout that the cache already belongs to answers
/// from the cache, with the verdict the first query left there, and starts
/// no probe.
pub proof fn lemma_same_layout_answers_from_cache(d: AltGrDetector, hkl: u64)
    requires
        d.layout() == hkl,
    ensures
        d.query_step(hkl) == AltGrStep::Known(d.cached()),
{
}

/// Which modifier keys the OS reports as held down, and which lock keys as
/// toggled on.
#[derive(Debug, Clone, Copy, PartialEq, Eq, Structural, Hash, Default)]
pub struct KeyboardState {
    pub shift_left: bool,
    pub shift_right: bool,
    pub control_left: bool,
    pub control_right: bool,
    pub alt_left: bool,
    pub alt_right: bool,
    pub meta_left: bool,
    pub meta_right: bool,
    pub num_lock: bool,
    pub caps_lock: bool,
    pub scroll_lock: bool,
}

/// Whether the held keys are AltGr: the layout has AltGr and right Alt is
/// down. The Control and Alt that the OS reports along with it are then not
/// reported as such.
pub open spec fn altgr_held(keys: KeyboardState, uses_altgr: bool) -> bool {
    uses_altgr && keys.alt_right
}

pub open spec fn bit_if(b: bool, flag: u32) -> u32 {
    if b { flag } else { 0 }
}

/// The modifier bits for a set of held keys.
pub open spec fn modifier_bits(
    shift_left: bool,
    shift_right: bool,
    control_left: bool,
    control_right: bool,
    alt_left: bool,
    alt_right: bool,
    alt_gr: bool,
    meta_left: bool,
    meta_right: bool,
    num_lock: bool,
    caps_lock: bool,
    scroll_lock: bool,
) -> u32 {
    bit_if(shift_left || shift_right, ModifierState::SHIFT) | bit_if(
        shift_left,
        ModifierState::SHIFT_LEFT,
    ) | bit_if(shift_right, ModifierState::SHIFT_RIGHT) | bit_if(
        control_left || control_right,
        ModifierState::CONTROL,
    ) | bit_if(control_left, ModifierState::CONTROL_LEFT) | bit_if(
        control_right,
        ModifierState::CONTROL_RIGHT,
    ) | bit_if(alt_left || alt_right, ModifierState::ALT) | bit_if(
        alt_left,
        ModifierState::ALT_LEFT,
    ) | bit_if(alt_right, ModifierState::ALT_RIGHT) | bit_if(alt_gr, ModifierState::ALT_GR)
        | bit_if(meta_left || meta_right, ModifierState::META) | bit_if(
        meta_left,
        ModifierState::META_LEFT,
    ) | bit_if(meta_right, ModifierState::META_RIGHT) | bit_if(num_lock, ModifierState::NUM_LOCK)
        | bit_if(caps_lock, ModifierState::CAPS_LOCK) | bit_if(
        scroll_lock,
        ModifierState::SCROLL_LOCK,
    )
}

/// The modifier state of a keyboard: every held side key with its
/// "either side" bit, and the lock keys that are on; while AltGr is held,
/// Control and Alt are left out and `ALT_GR` is set instead.
pub open spec fn key_mods(keys: KeyboardState, uses_altgr: bool) -> ModifierState {
    let g = altgr_held(keys, uses_altgr);
    ModifierState {
        bits: modifier_bits(
            keys.shift_left,
            keys.shift_right,
            keys.control_left && !g,
            keys.control_right && !g,
            keys.alt_left && !g,
            keys.alt_right && !g,
            g,
            keys.meta_left,
            keys.meta_right,
            keys.num_lock,
            keys.caps_lock,
            keys.scroll_lock,
        ),
    }
}

proof fn lemma_modifier_bits_consistent(
    shift_left: bool,
    shift_right: bool,
    control_left: bool,
    control_right: bool,
    alt_left: bool,
    alt_right: bool,
    alt_gr: bool,
    meta_left: bool,
    meta_right: bool,
    num_lock: bool,
    caps_lock: bool,
    scroll_lock: bool,
)
    by (bit_vector)
    ensures
        consistent_bits(
            modifier_bits(
                shift_left,
                shift_right,
                control_left,
                control_right,
                alt_left,
                alt_right,
                alt_gr,
                meta_left,
                meta_right,
                num_lock,
                caps_lock,
                scroll_lock,
            ),
        ),
{
}

fn bit_when(b: bool, flag: u32) -> (r: u32)
    ensures
        r == bit_if(b, flag),
{
    if b {
        flag
    } else {
        0
    }
}

/// The modifier state of a keyboard as the OS reports it, given whether the
/// active layout uses AltGr.
pub fn get_key_mods(keys: &KeyboardState, uses_altgr: bool) -> (r: ModifierState)
    ensures
        r == key_mods(*keys, uses_altgr),
        r.is_consistent(),
{
    let g = uses_altgr && keys.alt_right;
    let control_left = keys.control_left && !g;
    let control_right = keys.control_right && !g;
    let alt_left = keys.alt_left && !g;
    let alt_right = keys.alt_right && !g;
    let bits = bit_when(keys.shift_left || keys.shift_right, ModifierState::SHIFT) | bit_when(
        keys.shift_left,
        ModifierState::SHIFT_LEFT,
    ) | bit_when(keys.shift_right, ModifierState::SHIFT_RIGHT) | bit_when(
        control_left || control_right,
        ModifierState::CONTROL,
    ) | bit_when(control_left, ModifierState::CONTROL_LEFT) | bit_when(
        control_right,
        ModifierState::CONTROL_RIGHT,
    ) | bit_when(alt_left || alt_right, ModifierState::ALT) | bit_when(
        alt_left,
        ModifierState::ALT_LEFT,
    ) | bit_when(alt_right, ModifierState::ALT_RIGHT) | bit_when(g, ModifierState::ALT_GR)
        | bit_when(keys.meta_left || keys.meta_right, ModifierState::META) | bit_when(
        keys.meta_left,
        ModifierState::META_LEFT,
    ) | bit_when(keys.meta_right, ModifierState::META_RIGHT) | bit_when(
        keys.num_lock,
        ModifierState::NUM_LOCK,
    ) | bit_when(keys.caps_lock, ModifierState::CAPS_LOCK) | bit_when(
        keys.scroll_lock,
        ModifierState::SCROLL_LOCK,
    );
    proof {
        lemma_modifier_bits_consistent(
            keys.shift_left,
            keys.shift_right,
            control_left,
            control_right,
            alt_left,
            alt_right,
            g,
            keys.meta_left,
            keys.meta_right,
            keys.num_lock,
            keys.caps_lock,
            keys.scroll_lock,
        );
    }
    ModifierState { bits }
}

} // verus!
