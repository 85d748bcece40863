use genshin_force_fps::address::RemoteAddress;
use genshin_force_fps::error::ErrorKind;
use genshin_force_fps::process::module::Module;
use genshin_force_fps::resolver::{
    extract_address, scan_fps_ptr, scan_fps_ptr_legacy, scan_fps_slot, scan_vsync_ptr, scan_vsync_slot, VsyncSlot,
};
use genshin_force_fps::trampoline::skip_trampolines;

fn image(base: u64, bytes: &[u8]) -> Module {
    Module::capture(RemoteAddress(base), bytes.to_vec()).unwrap()
}

fn put(bytes: &mut [u8], at: usize, code: &[u8]) {
    bytes[at..at + code.len()].copy_from_slice(code);
}

fn put_rel(bytes: &mut [u8], at: usize, opcode: &[u8], len: usize, target: i64) {
    put(bytes, at, opcode);
    let disp = (target - (at + len) as i64) as i32;
    put(bytes, at + opcode.len(), &disp.to_le_bytes());
}

#[test]
fn extract_address_counts_from_behind_the_instruction() {
    let module = image(0x1000, &[0x7F, 0x0F, 0x8B, 0x05, 0xF0, 0xFF, 0xFF, 0xFF]);
    assert_eq!(extract_address(&module, RemoteAddress(0x1000), 4, 8), Ok(RemoteAddress(0xFF8)));
}

#[test]
fn extract_address_with_a_positive_displacement() {
    let module = image(0x1000, &[0xE8, 0x10, 0x00, 0x00, 0x00]);
    assert_eq!(extract_address(&module, RemoteAddress(0x1000), 1, 5), Ok(RemoteAddress(0x1015)));
}

#[test]
fn extract_address_wraps_at_the_ends_of_the_address_space() {
    let low = image(0, &[0xE8, 0xF0, 0xFF, 0xFF, 0xFF]);
    assert_eq!(extract_address(&low, RemoteAddress(0), 1, 5), Ok(RemoteAddress(u64::MAX - 10)));
    let high = image(u64::MAX - 4, &[0xE8, 0x10, 0x00, 0x00, 0x00]);
    assert_eq!(extract_address(&high, RemoteAddress(u64::MAX - 4), 1, 5), Ok(RemoteAddress(0x10)));
}

#[test]
fn extract_address_refuses_a_displacement_outside_the_image() {
    let module = image(0x1000, &[0xE8, 0x10, 0x00, 0x00, 0x00]);
    assert_eq!(extract_address(&module, RemoteAddress(0x1000), 2, 6), Err(ErrorKind::OutOfBoundsTranslation));
    assert_eq!(extract_address(&module, RemoteAddress(0x0FFF), 0, 5), Err(ErrorKind::OutOfBoundsTranslation));
    assert_eq!(extract_address(&module, RemoteAddress(0x0FFF), 1, 5), Ok(RemoteAddress(0x0FFF + 5 + 0x10E8)));
    assert_eq!(extract_address(&module, RemoteAddress(0x2000), 1, 5), Err(ErrorKind::OutOfBoundsTranslation));
    assert_eq!(extract_address(&module, RemoteAddress(u64::MAX), 1, 5), Err(ErrorKind::OutOfBoundsTranslation));
}

#[test]
fn skip_trampolines_stops_at_once_on_another_opcode() {
    let module = image(0x1000, &[0x89, 0x0D, 0, 0, 0, 0]);
    assert_eq!(skip_trampolines(&module, RemoteAddress(0x1000)), Ok(RemoteAddress(0x1000)));
}

#[test]
fn skip_trampolines_follows_a_call() {
    let mut bytes = vec![0x90u8; 0x40];
    put_rel(&mut bytes, 0x00, &[0xE8], 5, 0x20);
    let module = image(0x1000, &bytes);
    assert_eq!(skip_trampolines(&module, RemoteAddress(0x1000)), Ok(RemoteAddress(0x1020)));
}

#[test]
fn skip_trampolines_follows_a_chain_of_calls_and_jumps() {
    let mut bytes = vec![0x90u8; 0x80];
    put_rel(&mut bytes, 0x10, &[0xE9], 5, 0x40);
    put_rel(&mut bytes, 0x40, &[0xE8], 5, 0x08);
    put_rel(&mut bytes, 0x08, &[0xE9], 5, 0x70);
    let module = image(0x2_0000, &bytes);
    assert_eq!(skip_trampolines(&module, RemoteAddress(0x2_0010)), Ok(RemoteAddress(0x2_0070)));
}

#[test]
fn skip_trampolines_refuses_a_jump_out_of_the_image() {
    let mut bytes = vec![0x90u8; 0x20];
    put_rel(&mut bytes, 0x00, &[0xE9], 5, 0x20);
    let module = image(0x1000, &bytes);
    assert_eq!(skip_trampolines(&module, RemoteAddress(0x1000)), Err(ErrorKind::OutOfBoundsTranslation));
    assert_eq!(skip_trampolines(&module, RemoteAddress(0x0FFF)), Err(ErrorKind::OutOfBoundsTranslation));
}

#[test]
fn skip_trampolines_refuses_a_trampoline_cut_off_by_the_end() {
    let module = image(0x1000, &[0x90, 0xE8, 0x00, 0x00]);
    assert_eq!(skip_trampolines(&module, RemoteAddress(0x1001)), Err(ErrorKind::OutOfBoundsTranslation));
}

#[test]
fn skip_trampolines_gives_up_on_a_loop() {
    let mut bytes = vec![0x90u8; 0x20];
    put_rel(&mut bytes, 0x00, &[0xE9], 5, 0x00);
    put_rel(&mut bytes, 0x08, &[0xE9], 5, 0x10);
    put_rel(&mut bytes, 0x10, &[0xE8], 5, 0x08);
    let module = image(0x1000, &bytes);
    assert_eq!(skip_trampolines(&module, RemoteAddress(0x1000)), Err(ErrorKind::TrampolineLoop));
    assert_eq!(skip_trampolines(&module, RemoteAddress(0x1008)), Err(ErrorKind::TrampolineLoop));
}

#[test]
fn skip_trampolines_takes_a_chain_through_every_fifth_byte() {
    let count = 40;
    let mut bytes = vec![0x90u8; 5 * count + 1];
    for k in 0..count {
        put_rel(&mut bytes, 5 * k, &[0xE9], 5, 5 * (k as i64 + 1));
    }
    let module = image(0x1000, &bytes);
    assert_eq!(skip_trampolines(&module, RemoteAddress(0x1000)), Ok(RemoteAddress(0x1000 + 5 * count as u64)));
}

fn script_module() -> Module {
    let mut bytes = vec![0xCCu8; 0x1000];
    put(&mut bytes, 0x100, &[0xE8, 0, 0, 0, 0, 0x85, 0xC0, 0x7E, 0x07, 0xE8, 1, 2, 3, 4, 0xEB, 0x05]);
    put_rel(&mut bytes, 0x100, &[0xE8], 5, 0x200);
    put_rel(&mut bytes, 0x200, &[0x48, 0x8B, 0x05], 7, 0x300);
    image(0x1_0000, &bytes)
}

fn player_module() -> Module {
    let mut bytes = vec![0xCCu8; 0x1000];
    put_rel(&mut bytes, 0x010, &[0xE9], 5, 0x040);
    put_rel(&mut bytes, 0x040, &[0xE8], 5, 0x080);
    put_rel(&mut bytes, 0x080, &[0x89, 0x0D], 6, 0x1086);
    put(&mut bytes, 0x400, &[0xE8, 0, 0, 0, 0, 0x8B, 0xE8, 0x49, 0x8B, 0x1E]);
    put_rel(&mut bytes, 0x400, &[0xE8], 5, 0x500);
    put_rel(&mut bytes, 0x500, &[0x48, 0x8B, 0x05], 7, 0x900);
    put(&mut bytes, 0x507, &[0x8B, 0x80]);
    put(&mut bytes, 0x509, &0x2C4i32.to_le_bytes());
    put(&mut bytes, 0x700, &[0x7F, 0x0F, 0x8B, 0x05]);
    put(&mut bytes, 0x704, &(-0x20i32).to_le_bytes());
    image(0x2_0000, &bytes)
}

#[test]
fn scan_fps_slot_walks_from_the_anchor_to_the_slot() {
    assert_eq!(scan_fps_slot(&script_module()), Ok(RemoteAddress(0x1_0300)));
}

#[test]
fn scan_fps_slot_reports_a_missing_anchor() {
    let module = image(0x1_0000, &[0xCCu8; 0x200]);
    assert_eq!(scan_fps_slot(&module), Err(ErrorKind::PatternNotFound));
    assert_eq!(scan_fps_slot(&player_module()), Err(ErrorKind::PatternNotFound));
}

#[test]
fn scan_fps_slot_refuses_a_call_out_of_the_module() {
    let mut bytes = vec![0xCCu8; 0x200];
    put(&mut bytes, 0x100, &[0xE8, 0, 0x10, 0, 0, 0x85, 0xC0, 0x7E, 0x07, 0xE8, 1, 2, 3, 4, 0xEB, 0x05]);
    assert_eq!(scan_fps_slot(&image(0x1_0000, &bytes)), Err(ErrorKind::OutOfBoundsTranslation));
}

#[test]
fn scan_fps_ptr_skips_the_trampolines_and_reads_the_field() {
    let player = player_module();
    assert_eq!(scan_fps_ptr(&player, RemoteAddress(0x2_0010)), Ok(RemoteAddress(0x2_1086)));
    assert_eq!(scan_fps_ptr(&player, RemoteAddress(0x2_0040)), Ok(RemoteAddress(0x2_1086)));
    assert_eq!(scan_fps_ptr(&player, RemoteAddress(0x2_0080)), Ok(RemoteAddress(0x2_1086)));
}

#[test]
fn scan_fps_ptr_refuses_a_function_outside_the_module() {
    assert_eq!(scan_fps_ptr(&player_module(), RemoteAddress(0x3_0000)), Err(ErrorKind::OutOfBoundsTranslation));
}

#[test]
fn scan_fps_ptr_legacy_reads_behind_the_anchor() {
    assert_eq!(scan_fps_ptr_legacy(&player_module()), Ok(RemoteAddress(0x2_0700 + 8 - 0x20)));
    assert_eq!(scan_fps_ptr_legacy(&script_module()), Err(ErrorKind::PatternNotFound));
}

#[test]
fn scan_vsync_slot_reads_slot_and_offset() {
    assert_eq!(
        scan_vsync_slot(&player_module()),
        Ok(VsyncSlot { slot: RemoteAddress(0x2_0900), offset: 0x2C4 })
    );
    assert_eq!(scan_vsync_slot(&script_module()), Err(ErrorKind::PatternNotFound));
}

#[test]
fn scan_vsync_slot_refuses_an_offset_outside_the_module() {
    let mut bytes = vec![0xCCu8; 0x20];
    put(&mut bytes, 0x00, &[0xE8, 0, 0, 0, 0, 0x8B, 0xE8, 0x49, 0x8B, 0x1E]);
    put_rel(&mut bytes, 0x00, &[0xE8], 5, 0x15);
    put_rel(&mut bytes, 0x15, &[0x48, 0x8B, 0x05], 7, 0x00);
    assert_eq!(scan_vsync_slot(&image(0x1000, &bytes)), Err(ErrorKind::OutOfBoundsTranslation));
}

#[test]
fn scan_vsync_ptr_adds_the_offset_to_the_block() {
    assert_eq!(scan_vsync_ptr(RemoteAddress(0x1_4000_0000), 0x2C4), RemoteAddress(0x1_4000_02C4));
    assert_eq!(scan_vsync_ptr(RemoteAddress(0x1_4000_0000), -4), RemoteAddress(0x1_3FFF_FFFC));
    assert_eq!(scan_vsync_ptr(RemoteAddress(2), -4), RemoteAddress(u64::MAX - 1));
    assert_eq!(scan_vsync_ptr(RemoteAddress(u64::MAX), 1), RemoteAddress(0));
}

#[test]
fn the_names_of_the_two_modules() {
    assert_eq!(genshin_force_fps::resolver::PLAYER_MODULE, "UnityPlayer.dll");
    assert_eq!(genshin_force_fps::resolver::SCRIPT_MODULE, "UserAssembly.dll");
    assert_eq!(genshin_force_fps::resolver::FPS_ANCHOR, "E8 ? ? ? ? 85 C0 7E 07 E8 ? ? ? ? EB 05");
    assert_eq!(genshin_force_fps::resolver::FPS_ANCHOR_LEGACY, "7F 0F 8B 05 ? ? ? ?");
    assert_eq!(genshin_force_fps::resolver::VSYNC_ANCHOR, "E8 ? ? ? ? 8B E8 49 8B 1E");
}

#[test]
fn addresses_move_and_wrap() {
    assert_eq!(RemoteAddress(0x1000).wrapping_offset(-0x1001), RemoteAddress(u64::MAX));
    assert_eq!(RemoteAddress(0x1000).wrapping_offset(i64::MIN), RemoteAddress(0x8000_0000_0000_1000));
    assert_eq!(RemoteAddress(u64::MAX).wrapping_offset(i64::MAX), RemoteAddress(0x7FFF_FFFF_FFFF_FFFE));
    assert_eq!(RemoteAddress(0x1000).relative_target(8, -16), RemoteAddress(0xFF8));
    assert_eq!(RemoteAddress(u64::MAX).relative_target(usize::MAX, i32::MAX), RemoteAddress((u64::MAX).wrapping_add(usize::MAX as u64).wrapping_add(i32::MAX as u64)));
    assert_eq!(RemoteAddress(0).relative_target(0, i32::MIN), RemoteAddress(0xFFFF_FFFF_8000_0000));
    assert_eq!(RemoteAddress(0x1000).checked_advance(4), Some(RemoteAddress(0x1004)));
    assert_eq!(RemoteAddress(u64::MAX).checked_advance(1), None);
    assert_eq!(RemoteAddress(u64::MAX).checked_advance(0), Some(RemoteAddress(u64::MAX)));
}
