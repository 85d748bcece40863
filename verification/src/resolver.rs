//! From a signature hit to a live address.
//!
//! The values that are to be enforced are not exported by the target. They
//! are reached from fixed instruction sequences, the anchors, by following
//! the relative displacements that those instructions encode. All of that is
//! read in the module snapshots. One step cannot be: a pointer slot that the
//! target fills only when its runtime has started. That slot is read in the
//! live process, again and again, by whoever drives a `SlotPoll`.

use crate::address::RemoteAddress;
use crate::error::ErrorKind;
use crate::pattern::{lemma_token, matchers_from, parse_pattern, Matcher, PatternError};
use crate::process::module::{Module, ModuleImage};
use crate::trampoline::{function_body, skip_trampolines};
use vstd::prelude::*;

verus! {

/// The name of the player module: the engine, with the frame-rate field and
/// the vertical-sync flag.
pub const PLAYER_MODULE: &'static str = "UnityPlayer.dll";

/// The name of the scripting module: the game's own code, with the anchor of
/// the frame-rate chain.
pub const SCRIPT_MODULE: &'static str = "UserAssembly.dll";

/// The anchor of the frame-rate chain, searched in the scripting module.
pub const FPS_ANCHOR: &'static str = "E8 ? ? ? ? 85 C0 7E 07 E8 ? ? ? ? EB 05";

/// The anchor of the frame-rate field in older builds of the player module.
pub const FPS_ANCHOR_LEGACY: &'static str = "7F 0F 8B 05 ? ? ? ?";

/// The anchor of the vertical-sync chain, searched in the player module.
pub const VSYNC_ANCHOR: &'static str = "E8 ? ? ? ? 8B E8 49 8B 1E";

/// The address that the instruction at `inst` refers to: the displacement is
/// read in the snapshot `address_offset` bytes into the instruction, and
/// counts from the first byte after the instruction, `inst_len` bytes on.
pub open spec fn relative_target(
    image: ModuleImage,
    inst: RemoteAddress,
    address_offset: int,
    inst_len: int,
) -> Result<RemoteAddress, ErrorKind> {
    match image.i32_at(inst.0 + address_offset) {
        Ok(displacement) => Ok(inst.displaced(inst_len + displacement)),
        Err(error) => Err(error),
    }
}

/// Computes the address that an instruction with a relative displacement
/// refers to. The four bytes of the displacement have to lie in the module.
pub fn extract_address(
    m: &Module,
    inst: RemoteAddress,
    address_offset: usize,
    inst_len: usize,
) -> (target: Result<RemoteAddress, ErrorKind>)
    ensures
        target == relative_target(m@, inst, address_offset as int, inst_len as int),
{
    match m.read_i32_at(inst, address_offset) {
        Ok(displacement) => Ok(inst.relative_target(inst_len, displacement)),
        Err(error) => Err(error),
    }
}

/// The matchers that `FPS_ANCHOR` stands for.
pub open spec fn fps_anchor() -> Seq<Matcher> {
    seq![
        Matcher::Exact(0xE8),
        Matcher::Any,
        Matcher::Any,
        Matcher::Any,
        Matcher::Any,
        Matcher::Exact(0x85),
        Matcher::Exact(0xC0),
        Matcher::Exact(0x7E),
        Matcher::Exact(0x07),
        Matcher::Exact(0xE8),
        Matcher::Any,
        Matcher::Any,
        Matcher::Any,
        Matcher::Any,
        Matcher::Exact(0xEB),
        Matcher::Exact(0x05),
    ]
}

/// The matchers that `FPS_ANCHOR_LEGACY` stands for.
pub open spec fn fps_anchor_legacy() -> Seq<Matcher> {
    seq![
        Matcher::Exact(0x7F),
        Matcher::Exact(0x0F),
        Matcher::Exact(0x8B),
        Matcher::Exact(0x05),
        Matcher::Any,
        Matcher::Any,
        Matcher::Any,
        Matcher::Any,
    ]
}

/// The matchers that `VSYNC_ANCHOR` stands for.
pub open spec fn vsync_anchor() -> Seq<Matcher> {
    seq![
        Matcher::Exact(0xE8),
        Matcher::Any,
        Matcher::Any,
        Matcher::Any,
        Matcher::Any,
        Matcher::Exact(0x8B),
        Matcher::Exact(0xE8),
        Matcher::Exact(0x49),
        Matcher::Exact(0x8B),
        Matcher::Exact(0x1E),
    ]
}

/// The text of the frame-rate anchor compiles to `fps_anchor`.
pub proof fn lemma_fps_anchor()
    ensures
        parse_pattern(FPS_ANCHOR@) == Ok::<Seq<Matcher>, PatternError>(fps_anchor()),
{
    reveal_strlit("E8 ? ? ? ? 85 C0 7E 07 E8 ? ? ? ? EB 05");
    let text = FPS_ANCHOR@;
    assert(text.len() == 39);
    assert(text.subrange(37, 39) =~= seq!['0', '5']);
    lemma_token(text, 37, 39);
    assert(text.subrange(34, 36) =~= seq!['E', 'B']);
    lemma_token(text, 34, 36);
    assert(text.subrange(32, 33) =~= seq!['?']);
    lemma_token(text, 32, 33);
    assert(text.subrange(30, 31) =~= seq!['?']);
    lemma_token(text, 30, 31);
    assert(text.subrange(28, 29) =~= seq!['?']);
    lemma_token(text, 28, 29);
    assert(text.subrange(26, 27) =~= seq!['?']);
    lemma_token(text, 26, 27);
    assert(text.subrange(23, 25) =~= seq!['E', '8']);
    lemma_token(text, 23, 25);
    assert(text.subrange(20, 22) =~= seq!['0', '7']);
    lemma_token(text, 20, 22);
    assert(text.subrange(17, 19) =~= seq!['7', 'E']);
    lemma_token(text, 17, 19);
    assert(text.subrange(14, 16) =~= seq!['C', '0']);
    lemma_token(text, 14, 16);
    assert(text.subrange(11, 13) =~= seq!['8', '5']);
    lemma_token(text, 11, 13);
    assert(text.subrange(9, 10) =~= seq!['?']);
    lemma_token(text, 9, 10);
    assert(text.subrange(7, 8) =~= seq!['?']);
    lemma_token(text, 7, 8);
    assert(text.subrange(5, 6) =~= seq!['?']);
    lemma_token(text, 5, 6);
    assert(text.subrange(3, 4) =~= seq!['?']);
    lemma_token(text, 3, 4);
    assert(text.subrange(0, 2) =~= seq!['E', '8']);
    lemma_token(text, 0, 2);
    assert(matchers_from(text, 0)->0 =~= fps_anchor());
}

/// The text of the older frame-rate anchor compiles to `fps_anchor_legacy`.
pub proof fn lemma_fps_anchor_legacy()
    ensures
        parse_pattern(FPS_ANCHOR_LEGACY@) == Ok::<Seq<Matcher>, PatternError>(fps_anchor_legacy()),
{
    reveal_strlit("7F 0F 8B 05 ? ? ? ?");
    let text = FPS_ANCHOR_LEGACY@;
    assert(text.len() == 19);
    assert(text.subrange(18, 19) =~= seq!['?']);
    lemma_token(text, 18, 19);
    assert(text.subrange(16, 17) =~= seq!['?']);
    lemma_token(text, 16, 17);
    assert(text.subrange(14, 15) =~= seq!['?']);
    lemma_token(text, 14, 15);
    assert(text.subrange(12, 13) =~= seq!['?']);
    lemma_token(text, 12, 13);
    assert(text.subrange(9, 11) =~= seq!['0', '5']);
    lemma_token(text, 9, 11);
    assert(text.subrange(6, 8) =~= seq!['8', 'B']);
    lemma_token(text, 6, 8);
    assert(text.subrange(3, 5) =~= seq!['0', 'F']);
    lemma_token(text, 3, 5);
    assert(text.subrange(0, 2) =~= seq!['7', 'F']);
    lemma_token(text, 0, 2);
    assert(matchers_from(text, 0)->0 =~= fps_anchor_legacy());
}

/// The text of the vertical-sync anchor compiles to `vsync_anchor`.
pub proof fn lemma_vsync_anchor()
    ensures
        parse_pattern(VSYNC_ANCHOR@) == Ok::<Seq<Matcher>, PatternError>(vsync_anchor()),
{
    reveal_strlit("E8 ? ? ? ? 8B E8 49 8B 1E");
    let text = VSYNC_ANCHOR@;
    assert(text.len() == 25);
    assert(text.subrange(23, 25) =~= seq!['1', 'E']);
    lemma_token(text, 23, 25);
    assert(text.subrange(20, 22) =~= seq!['8', 'B']);
    lemma_token(text, 20, 22);
    assert(text.subrange(17, 19) =~= seq!['4', '9']);
    lemma_token(text, 17, 19);
    assert(text.subrange(14, 16) =~= seq!['E', '8']);
    lemma_token(text, 14, 16);
    assert(text.subrange(11, 13) =~= seq!['8', 'B']);
    lemma_token(text, 11, 13);
    assert(text.subrange(9, 10) =~= seq!['?']);
    lemma_token(text, 9, 10);
    assert(text.subrange(7, 8) =~= seq!['?']);
    lemma_token(text, 7, 8);
    assert(text.subrange(5, 6) =~= seq!['?']);
    lemma_token(text, 5, 6);
    assert(text.subrange(3, 4) =~= seq!['?']);
    lemma_token(text, 3, 4);
    assert(text.subrange(0, 2) =~= seq!['E', '8']);
    lemma_token(text, 0, 2);
    assert(matchers_from(text, 0)->0 =~= vsync_anchor());
}

/// The pointer slot of the frame-rate chain: the anchor in the scripting
/// module is a call; the function it calls begins with an instruction that
/// refers to the slot.
pub open spec fn fps_slot_of(script: ModuleImage) -> Result<RemoteAddress, ErrorKind> {
    match script.scan(fps_anchor()) {
        None => Err(ErrorKind::PatternNotFound),
        Some(anchor) => match relative_target(script, anchor, 1, 5) {
            Err(error) => Err(error),
            Ok(indirect) => relative_target(script, indirect, 3, 7),
        },
    }
}

/// The address of the frame-rate field: `function` is what the pointer slot
/// held; behind its trampolines the function begins with an instruction that
/// refers to the field.
pub open spec fn fps_field_of(player: ModuleImage, function: RemoteAddress) -> Result<
    RemoteAddress,
    ErrorKind,
> {
    match function_body(player, function) {
        Err(error) => Err(error),
        Ok(body) => relative_target(player, body, 2, 6),
    }
}

/// The address of the frame-rate field in older builds: the anchor in the
/// player module is followed by an instruction that refers to the field.
pub open spec fn fps_field_legacy_of(player: ModuleImage) -> Result<RemoteAddress, ErrorKind> {
    match player.scan(fps_anchor_legacy()) {
        None => Err(ErrorKind::PatternNotFound),
        Some(anchor) => relative_target(player, anchor, 4, 8),
    }
}

/// What the vertical-sync chain reads in the snapshot.
#[derive(Clone, Copy, Debug, PartialEq, Eq, Structural)]
pub struct VsyncSlot {
    /// The slot that will hold the address of the settings block.
    pub slot: RemoteAddress,
    /// The distance of the flag from the start of that block.
    pub offset: i32,
}

/// The pointer slot of the vertical-sync chain and the offset of the flag:
/// the anchor in the player module is a call; the function it calls refers
/// to the slot in its first instruction and holds the offset nine bytes in.
pub open spec fn vsync_slot_of(player: ModuleImage) -> Result<VsyncSlot, ErrorKind> {
    match player.scan(vsync_anchor()) {
        None => Err(ErrorKind::PatternNotFound),
        Some(anchor) => match relative_target(player, anchor, 1, 5) {
            Err(error) => Err(error),
            Ok(function) => match relative_target(player, function, 3, 7) {
                Err(error) => Err(error),
                Ok(slot) => match player.i32_at(function.0 + 9) {
                    Err(error) => Err(error),
                    Ok(offset) => Ok(VsyncSlot { slot, offset: offset as i32 }),
                },
            },
        },
    }
}

/// Finds the pointer slot of the frame-rate chain in the snapshot of the
/// scripting module.
pub fn scan_fps_slot(m_ua: &Module) -> (slot: Result<RemoteAddress, ErrorKind>)
    ensures
        slot == fps_slot_of(m_ua@),
{
    proof {
        lemma_fps_anchor();
    }
    let anchor = match m_ua.pattern_scan(FPS_ANCHOR) {
        Some(anchor) => anchor,
        None => {
            return Err(ErrorKind::PatternNotFound);
        },
    };
    match extract_address(m_ua, anchor, 1, 5) {
        Ok(indirect) => extract_address(m_ua, indirect, 3, 7),
        Err(error) => Err(error),
    }
}

/// Finds the frame-rate field from the function address that the pointer
/// slot held, in the snapshot of the player module.
pub fn scan_fps_ptr(
    m_up: &Module,
    function: RemoteAddress,
) -> (field: Result<RemoteAddress, ErrorKind>)
    ensures
        field == fps_field_of(m_up@, function),
{
    match skip_trampolines(m_up, function) {
        Ok(body) => extract_address(m_up, body, 2, 6),
        Err(error) => Err(error),
    }
}

/// Finds the frame-rate field of an older build in the snapshot of the
/// player module.
pub fn scan_fps_ptr_legacy(m_up: &Module) -> (field: Result<RemoteAddress, ErrorKind>)
    ensures
        field == fps_field_legacy_of(m_up@),
{
    proof {
        lemma_fps_anchor_legacy();
    }
    match m_up.pattern_scan(FPS_ANCHOR_LEGACY) {
        Some(anchor) => extract_address(m_up, anchor, 4, 8),
        None => Err(ErrorKind::PatternNotFound),
    }
}

/// Finds the pointer slot of the vertical-sync chain and the offset of the
/// flag in the snapshot of the player module.
pub fn scan_vsync_slot(m_up: &Module) -> (found: Result<VsyncSlot, ErrorKind>)
    ensures
        found == vsync_slot_of(m_up@),
{
    proof {
        lemma_vsync_anchor();
    }
    let anchor = match m_up.pattern_scan(VSYNC_ANCHOR) {
        Some(anchor) => anchor,
        None => {
            return Err(ErrorKind::PatternNotFound);
        },
    };
    let function = match extract_address(m_up, anchor, 1, 5) {
        Ok(function) => function,
        Err(error) => {
            return Err(error);
        },
    };
    let slot = match extract_address(m_up, function, 3, 7) {
        Ok(slot) => slot,
        Err(error) => {
            return Err(error);
        },
    };
    match m_up.read_i32_at(function, 9) {
        Ok(offset) => Ok(VsyncSlot { slot, offset }),
        Err(error) => Err(error),
    }
}

/// The address of the vertical-sync flag: `offset` bytes from the block
/// whose address the pointer slot held.
pub fn scan_vsync_ptr(base: RemoteAddress, offset: i32) -> (flag: RemoteAddress)
    ensures
        flag == base.displaced(offset as int),
{
    base.wrapping_offset(offset as i64)
}

} // verus!
