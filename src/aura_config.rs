use vstd::prelude::*;
use vstd::laws_cmp::group_laws_cmp;
use std::collections::BTreeMap;

use crate::aura::{default_effect, lemma_mode_byte_injective, mode_byte, zoned, AuraEffect, AuraModeNum, AuraMultiZone, AuraZone};

verus! {

broadcast use group_laws_cmp;

/// The stored keyboard lighting settings: brightness, current mode, the
/// effect of each built-in mode (keyed by its mode byte) and, on keyboards
/// with zones, the per-zone effects.
pub struct AuraConfig {
    pub brightness: u8,
    pub current_mode: AuraModeNum,
    pub builtins: BTreeMap<u8, AuraEffect>,
    pub multizone: Option<AuraMultiZone>,
}

impl AuraConfig {
    /// Brightness 1, static mode, no stored effects and no zones.
    pub fn new() -> (r: AuraConfig)
        ensures
            r.brightness == 1,
            r.current_mode == AuraModeNum::Static,
            r.builtins@ == Map::<u8, AuraEffect>::empty(),
            r.multizone is None,
    {
        AuraConfig {
            brightness: 1,
            current_mode: AuraModeNum::Static,
            builtins: BTreeMap::new(),
            multizone: None,
        }
    }

    /// The configuration written when none is stored: the defaults, with the
    /// default effect of each of the laptop's standard modes.
    pub fn create_default(standard: &Vec<AuraModeNum>) -> (r: AuraConfig)
        ensures
            r.brightness == 1,
            r.current_mode == AuraModeNum::Static,
            r.multizone is None,
            forall|i: int| 0 <= i < standard@.len() ==> r.builtins@.contains_key(mode_byte(#[trigger] standard@[i]))
                && r.builtins@[mode_byte(standard@[i])] == (AuraEffect { mode: standard@[i], ..default_effect() }),
            forall|b: u8| #[trigger] r.builtins@.contains_key(b) ==> exists|i: int| 0 <= i < standard@.len() && mode_byte(#[trigger] standard@[i]) == b,
    {
        let mut config = AuraConfig::new();
        let mut k: usize = 0;
        while k < standard.len()
            invariant
                0 <= k <= standard@.len(),
                config.brightness == 1,
                config.current_mode == AuraModeNum::Static,
                config.multizone is None,
                forall|i: int| 0 <= i < k ==> config.builtins@.contains_key(mode_byte(#[trigger] standard@[i]))
                    && config.builtins@[mode_byte(standard@[i])] == (AuraEffect { mode: standard@[i], ..default_effect() }),
                forall|b: u8| #[trigger] config.builtins@.contains_key(b) ==> exists|i: int| 0 <= i < k && mode_byte(#[trigger] standard@[i]) == b,
            decreases standard@.len() - k,
        {
            let m = standard[k];
            config.builtins.insert(m.to_byte(), AuraEffect::default_with_mode(m));
            proof {
                assert forall|i: int| 0 <= i <= k implies config.builtins@.contains_key(mode_byte(#[trigger] standard@[i]))
                    && config.builtins@[mode_byte(standard@[i])] == (AuraEffect { mode: standard@[i], ..default_effect() }) by {
                    if i < k && mode_byte(standard@[i]) == mode_byte(m) {
                        lemma_mode_byte_injective(standard@[i], m);
                    }
                }
                assert forall|b: u8| #[trigger] config.builtins@.contains_key(b) implies exists|i: int| 0 <= i < k + 1 && mode_byte(#[trigger] standard@[i]) == b by {
                    if b == mode_byte(m) {
                        assert(mode_byte(standard@[k as int]) == b);
                    }
                }
            }
            k = k + 1;
        }
        config
    }

    /// Stores `effect`: an effect for the whole keyboard replaces the stored
    /// effect of its mode; a zoned one goes to the per-zone effects, where
    /// the keyboard has zones.
    pub fn set_builtin(&mut self, effect: AuraEffect)
        ensures
            final(self).brightness == old(self).brightness,
            final(self).current_mode == old(self).current_mode,
            effect.zone == AuraZone::Whole ==> final(self).builtins@ == old(self).builtins@.insert(
                mode_byte(effect.mode),
                effect,
            ) && final(self).multizone == old(self).multizone,
            effect.zone != AuraZone::Whole ==> final(self).builtins@ == old(self).builtins@,
            effect.zone != AuraZone::Whole ==> match old(self).multizone {
                Some(m) => final(self).multizone matches Some(n) && (n.static_@, n.breathe@) == zoned(m, effect),
                None => final(self).multizone is None,
            },
    {
        match effect.zone {
            AuraZone::Whole => {
                self.builtins.insert(effect.mode.to_byte(), effect);
            },
            _ => {
                if let Some(multi) = self.multizone.as_mut() {
                    multi.set(effect);
                }
            },
        }
    }

    /// The per-zone effects of `aura_type`, for the two modes that have them,
    /// where the keyboard has zones.
    pub fn get_multizone(&self, aura_type: AuraModeNum) -> (r: Option<&[AuraEffect; 4]>)
        ensures
            match self.multizone {
                Some(m) => match aura_type {
                    AuraModeNum::Static => r == Some(&m.static_),
                    AuraModeNum::Breathe => r == Some(&m.breathe),
                    _ => r is None,
                },
                None => r is None,
            },
    {
        if let Some(multi) = &self.multizone {
            if aura_type == AuraModeNum::Static {
                return Some(&multi.static_);
            } else if aura_type == AuraModeNum::Breathe {
                return Some(&multi.breathe);
            }
        }
        None
    }
}

} // verus!
