use vstd::prelude::*;
use vstd::std_specs::convert::FromSpecImpl;

use crate::ids::ItemId;

verus! {

/// The number of function keys.
pub const FUNC_KEYS: usize = 89;

/// The number of quick slots.
pub const QUICK_SLOTS: usize = 8;

/// What a key is bound to.
#[derive(Debug, Clone, Copy, PartialEq, Eq, Structural)]
pub struct FuncKey {
    pub ty: u8,
    pub action_id: u32,
}

impl Default for FuncKey {
    fn default() -> (r: FuncKey)
        ensures
            r == (FuncKey { ty: 0, action_id: 0 }),
    {
        FuncKey { ty: 0, action_id: 0 }
    }
}

/// The key bindings sent when a player enters the game: the default ones,
/// or the player's own.
#[derive(Debug, Clone)]
pub enum FuncKeyMapInitResp {
    DefaultMap,
    KeyMap(Box<[FuncKey; FUNC_KEYS]>),
}

impl FuncKeyMapInitResp {
    /// The tag of the variant on the wire.
    pub fn tag(&self) -> (r: u8)
        ensures
            r == (match *self {
                FuncKeyMapInitResp::DefaultMap => 1u8,
                FuncKeyMapInitResp::KeyMap(_) => 0u8,
            }),
    {
        match self {
            FuncKeyMapInitResp::DefaultMap => 1,
            FuncKeyMapInitResp::KeyMap(_) => 0,
        }
    }
}

impl From<Option<[FuncKey; FUNC_KEYS]>> for FuncKeyMapInitResp {
    fn from(map: Option<[FuncKey; FUNC_KEYS]>) -> (r: FuncKeyMapInitResp) {
        match map {
            Some(map) => FuncKeyMapInitResp::KeyMap(Box::new(map)),
            None => FuncKeyMapInitResp::DefaultMap,
        }
    }
}

impl FromSpecImpl<Option<[FuncKey; FUNC_KEYS]>> for FuncKeyMapInitResp {
    open spec fn obeys_from_spec() -> bool {
        true
    }

    open spec fn from_spec(map: Option<[FuncKey; FUNC_KEYS]>) -> FuncKeyMapInitResp {
        match map {
            Some(map) => FuncKeyMapInitResp::KeyMap(Box::new(map)),
            None => FuncKeyMapInitResp::DefaultMap,
        }
    }
}

/// The item a pet consumes for hp.
#[derive(Debug, Clone, Copy, PartialEq, Eq, Structural)]
pub struct FuncKeyMapPetConsumeInitResp(pub ItemId);

/// The item a pet consumes for mp.
#[derive(Debug, Clone, Copy, PartialEq, Eq, Structural)]
pub struct FuncKeyMapPetConsumeMpInitResp(pub ItemId);

/// A change of the key bindings.
#[derive(Debug, Clone)]
pub enum FuncKeyMapChangeReq {
    Changed(Vec<(u32, FuncKey)>),
    PetConsumeItem(ItemId),
    PetMpConsumeItem(ItemId),
}

impl FuncKeyMapChangeReq {
    /// The tag of the variant on the wire.
    pub fn tag(&self) -> (r: u32)
        ensures
            r == (match *self {
                FuncKeyMapChangeReq::Changed(_) => 0u32,
                FuncKeyMapChangeReq::PetConsumeItem(_) => 1u32,
                FuncKeyMapChangeReq::PetMpConsumeItem(_) => 2u32,
            }),
    {
        match self {
            FuncKeyMapChangeReq::Changed(_) => 0,
            FuncKeyMapChangeReq::PetConsumeItem(_) => 1,
            FuncKeyMapChangeReq::PetMpConsumeItem(_) => 2,
        }
    }
}

/// A change of the quick slots.
#[derive(Debug, Clone, Copy, PartialEq, Eq)]
pub struct QuickslotKeyMapChangedReq(pub [u32; QUICK_SLOTS]);

/// The quick slots sent when a player enters the game: the default ones, or
/// the player's own.
#[derive(Debug, Clone, Copy, PartialEq, Eq)]
pub enum QuickSlotInitResp {
    DefaultMap,
    KeyMap([u32; QUICK_SLOTS]),
}

impl QuickSlotInitResp {
    /// The tag of the variant on the wire.
    pub fn tag(&self) -> (r: u8)
        ensures
            r == (match *self {
                QuickSlotInitResp::DefaultMap => 0u8,
                QuickSlotInitResp::KeyMap(_) => 1u8,
            }),
    {
        match self {
            QuickSlotInitResp::DefaultMap => 0,
            QuickSlotInitResp::KeyMap(_) => 1,
        }
    }
}

impl From<Option<[u32; QUICK_SLOTS]>> for QuickSlotInitResp {
    fn from(map: Option<[u32; QUICK_SLOTS]>) -> (r: QuickSlotInitResp) {
        match map {
            Some(map) => QuickSlotInitResp::KeyMap(map),
            None => QuickSlotInitResp::DefaultMap,
        }
    }
}

impl FromSpecImpl<Option<[u32; QUICK_SLOTS]>> for QuickSlotInitResp {
    open spec fn obeys_from_spec() -> bool {
        true
    }

    open spec fn from_spec(map: Option<[u32; QUICK_SLOTS]>) -> QuickSlotInitResp {
        match map {
            Some(map) => QuickSlotInitResp::KeyMap(map),
            None => QuickSlotInitResp::DefaultMap,
        }
    }
}

} // verus!
