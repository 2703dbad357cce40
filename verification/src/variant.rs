//! The hardware variant being emulated and its DMG-compatibility state.

use vstd::prelude::*;

verus! {

/// The console variant.  The color variants carry the compatibility flag
/// that the boot code can set for monochrome cartridges.
#[derive(Debug, Clone, Copy, PartialEq, Eq, Structural)]
pub enum GameBoyVariant {
    DMG0,
    DMG,
    CGB0 { dmg_compatibility: bool },
    CGB { dmg_compatibility: bool },
}

impl GameBoyVariant {
    /// Whether this is one of the color variants.
    pub open spec fn is_color_variant_spec(self) -> bool {
        match self {
            GameBoyVariant::DMG0 => false,
            GameBoyVariant::DMG => false,
            GameBoyVariant::CGB0 { .. } => true,
            GameBoyVariant::CGB { .. } => true,
        }
    }

    /// Whether the machine behaves as a monochrome one: always for the
    /// monochrome variants, and for a color variant once compatibility
    /// mode was entered.
    pub open spec fn is_dmg_compatible_spec(self) -> bool {
        match self {
            GameBoyVariant::DMG0 => true,
            GameBoyVariant::DMG => true,
            GameBoyVariant::CGB0 { dmg_compatibility } => dmg_compatibility,
            GameBoyVariant::CGB { dmg_compatibility } => dmg_compatibility,
        }
    }

    pub fn is_color_variant(&self) -> (r: bool)
        ensures
            r == self.is_color_variant_spec(),
    {
        match self {
            GameBoyVariant::DMG0 => false,
            GameBoyVariant::DMG => false,
            GameBoyVariant::CGB0 { .. } => true,
            GameBoyVariant::CGB { .. } => true,
        }
    }

    pub fn is_dmg_compatible(&self) -> (r: bool)
        ensures
            r == self.is_dmg_compatible_spec(),
    {
        match self {
            GameBoyVariant::DMG0 => true,
            GameBoyVariant::DMG => true,
            GameBoyVariant::CGB0 { dmg_compatibility } => *dmg_compatibility,
            GameBoyVariant::CGB { dmg_compatibility } => *dmg_compatibility,
        }
    }

    /// Enter DMG-compatibility mode; meaningful only on a color variant,
    /// a no-op on the monochrome ones.  It cannot be left again.
    pub fn set_dmg_compatibility(&mut self)
        ensures
            final(self).is_dmg_compatible_spec(),
            old(self).is_color_variant_spec() ==> *final(self) == (match *old(self) {
                GameBoyVariant::CGB0 { .. } => GameBoyVariant::CGB0 { dmg_compatibility: true },
                _ => GameBoyVariant::CGB { dmg_compatibility: true },
            }),
            !old(self).is_color_variant_spec() ==> *final(self) == *old(self),
    {
        match self {
            GameBoyVariant::CGB0 { dmg_compatibility } => *dmg_compatibility = true,
            GameBoyVariant::CGB { dmg_compatibility } => *dmg_compatibility = true,
            _ => {}
        }
    }
}

} // verus!
