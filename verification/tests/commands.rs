//! The command builders render the exact command line the external tool
//! expects, and optional trailing arguments are dropped entirely when the
//! caller omits them.

use lunar_magic_wrapper::{CompressionFormat, LevelExportFlag, LevelImportFlag, RomSize, Wrapper};

fn wrapper() -> Wrapper {
    Wrapper::new(String::from("C:/programs/LunarMagic/lunar_magic.exe"))
}

const TOOL: &str = "C:/programs/LunarMagic/lunar_magic.exe";

#[test]
fn export_gfx_renders_keyword_and_rom() {
    let cmd = wrapper().export_gfx("C:/hacks/my_hack.smc");
    assert_eq!(cmd, format!("{} -ExportGFX C:/hacks/my_hack.smc", TOOL));
}

#[test]
fn export_exgfx_renders_keyword_and_rom() {
    let cmd = wrapper().export_exgfx("C:/hacks/my_hack.smc");
    assert_eq!(cmd, format!("{} -ExportExGFX C:/hacks/my_hack.smc", TOOL));
}

#[test]
fn import_gfx_renders_keyword_and_rom() {
    let cmd = wrapper().import_gfx("C:/hacks/my_hack.smc");
    assert_eq!(cmd, format!("{} -ImportGFX C:/hacks/my_hack.smc", TOOL));
}

#[test]
fn import_exgfx_renders_keyword_and_rom() {
    let cmd = wrapper().import_exgfx("C:/hacks/my_hack.smc");
    assert_eq!(cmd, format!("{} -ImportExGFX C:/hacks/my_hack.smc", TOOL));
}

#[test]
fn import_all_graphics_renders_keyword_and_rom() {
    let cmd = wrapper().import_all_graphics("C:/hacks/my_hack.smc");
    assert_eq!(cmd, format!("{} -ImportAllGraphics C:/hacks/my_hack.smc", TOOL));
}

#[test]
fn export_level_renders_decimal_level_number() {
    let cmd = wrapper().export_level("rom.smc", "level 105.mwl", 105);
    assert_eq!(cmd, format!("{} -ExportLevel rom.smc level 105.mwl 105", TOOL));
}

#[test]
fn export_level_renders_zero_and_max() {
    let w = wrapper();
    assert_eq!(
        w.export_level("rom.smc", "a.mwl", 0),
        format!("{} -ExportLevel rom.smc a.mwl 0", TOOL)
    );
    assert_eq!(
        w.export_level("rom.smc", "a.mwl", u16::MAX),
        format!("{} -ExportLevel rom.smc a.mwl 65535", TOOL)
    );
}

#[test]
fn import_level_with_level_number() {
    let cmd = wrapper().import_level("rom.smc", "a.mwl", Some(261));
    assert_eq!(cmd, format!("{} -ImportLevel rom.smc a.mwl 261", TOOL));
}

#[test]
fn import_level_without_level_number_drops_the_argument() {
    let w = wrapper();
    let with = w.import_level("rom.smc", "a.mwl", Some(261));
    let without = w.import_level("rom.smc", "a.mwl", None);
    assert_eq!(without, format!("{} -ImportLevel rom.smc a.mwl", TOOL));
    assert_eq!(
        with.split(' ').count(),
        without.split(' ').count() + 1,
        "omission must change the token count, not substitute a placeholder"
    );
}

#[test]
fn import_map16_with_location_renders_x_comma_y() {
    let cmd = wrapper().import_map16("rom.smc", "tiles.map16", 105, Some((0x02, 0x40)));
    assert_eq!(cmd, format!("{} -ImportMap16 rom.smc tiles.map16 105 2,64", TOOL));
}

#[test]
fn import_map16_without_location_drops_the_argument() {
    let w = wrapper();
    let with = w.import_map16("rom.smc", "tiles.map16", 105, Some((2, 64)));
    let without = w.import_map16("rom.smc", "tiles.map16", 105, None);
    assert_eq!(without, format!("{} -ImportMap16 rom.smc tiles.map16 105", TOOL));
    assert_eq!(with.split(' ').count(), without.split(' ').count() + 1);
}

#[test]
fn import_custom_palette_renders_level_number() {
    let cmd = wrapper().import_custom_palette("rom.smc", "my_palette.pal", 105);
    assert_eq!(cmd, format!("{} -ImportCustomPalette rom.smc my_palette.pal 105", TOOL));
}

#[test]
fn export_shared_palette_renders_two_paths() {
    let cmd = wrapper().export_shared_palette("rom.smc", "shared.pal");
    assert_eq!(cmd, format!("{} -ExportSharedPalette rom.smc shared.pal", TOOL));
}

#[test]
fn import_shared_palette_renders_two_paths() {
    let cmd = wrapper().import_shared_palette("rom.smc", "shared.pal");
    assert_eq!(cmd, format!("{} -ImportSharedPalette rom.smc shared.pal", TOOL));
}

#[test]
fn export_all_map16_renders_two_paths() {
    let cmd = wrapper().export_all_map16("rom.smc", "all.map16");
    assert_eq!(cmd, format!("{} -ExportAllMap16 rom.smc all.map16", TOOL));
}

#[test]
fn import_all_map16_renders_two_paths() {
    let cmd = wrapper().import_all_map16("rom.smc", "all.map16");
    assert_eq!(cmd, format!("{} -ImportAllMap16 rom.smc all.map16", TOOL));
}

#[test]
fn export_mult_levels_with_flags_renders_their_value() {
    let cmd = wrapper().export_mult_levels(
        "rom.smc",
        "levels/level ",
        Some(LevelExportFlag::only_modified_levels()),
    );
    assert_eq!(cmd, format!("{} -ExportMultLevels rom.smc levels/level  1", TOOL));
}

#[test]
fn export_mult_levels_with_empty_flags_still_renders_a_value() {
    // Explicitly empty flags are different from omitted flags: a zero is
    // passed through so the tool does not fall back to its own default.
    let cmd = wrapper().export_mult_levels("rom.smc", "levels", Some(LevelExportFlag::empty()));
    assert_eq!(cmd, format!("{} -ExportMultLevels rom.smc levels 0", TOOL));
}

#[test]
fn export_mult_levels_without_flags_drops_the_argument() {
    let w = wrapper();
    let with = w.export_mult_levels("rom.smc", "levels", Some(LevelExportFlag::empty()));
    let without = w.export_mult_levels("rom.smc", "levels", None);
    assert_eq!(without, format!("{} -ExportMultLevels rom.smc levels", TOOL));
    assert_eq!(with.split(' ').count(), without.split(' ').count() + 1);
}

#[test]
fn import_mult_levels_with_flags_renders_their_value() {
    let cmd = wrapper().import_mult_levels(
        "rom.smc",
        "levels",
        Some(LevelImportFlag::clear_secondary_exits()),
    );
    assert_eq!(cmd, format!("{} -ImportMultLevels rom.smc levels 1", TOOL));
}

#[test]
fn import_mult_levels_without_flags_drops_the_argument() {
    let w = wrapper();
    let with = w.import_mult_levels("rom.smc", "levels", Some(LevelImportFlag::empty()));
    let without = w.import_mult_levels("rom.smc", "levels", None);
    assert_eq!(without, format!("{} -ImportMultLevels rom.smc levels", TOOL));
    assert_eq!(with.split(' ').count(), without.split(' ').count() + 1);
}

#[test]
fn expand_rom_renders_the_size_token() {
    let cmd = wrapper().expand_rom("rom.smc", RomSize::_4mb);
    assert_eq!(cmd, format!("{} -ExpandROM rom.smc 4MB", TOOL));
}

#[test]
fn change_compression_renders_the_format_token() {
    let cmd = wrapper().change_compression("rom.smc", CompressionFormat::LcLz2Speed);
    assert_eq!(cmd, format!("{} -ChangeCompression rom.smc LC_LZ2_Speed", TOOL));
}

#[test]
fn transfer_level_global_exanim_renders_dest_then_src() {
    let cmd = wrapper().transfer_level_global_exanim("dest.smc", "source.smc");
    assert_eq!(cmd, format!("{} -TransferLevelGlobalExAnim dest.smc source.smc", TOOL));
}

#[test]
fn transfer_overworld_renders_dest_then_src() {
    let cmd = wrapper().transfer_overworld("dest.smc", "source.smc");
    assert_eq!(cmd, format!("{} -TransferOverworld dest.smc source.smc", TOOL));
}

#[test]
fn transfer_title_screen_renders_dest_then_src() {
    let cmd = wrapper().transfer_title_screen("dest.smc", "source.smc");
    assert_eq!(cmd, format!("{} -TransferTitleScreen dest.smc source.smc", TOOL));
}

#[test]
fn transfer_credits_renders_dest_then_src() {
    let cmd = wrapper().transfer_credits("dest.smc", "source.smc");
    assert_eq!(cmd, format!("{} -TransferCredits dest.smc source.smc", TOOL));
}

#[test]
fn export_title_moves_renders_two_paths() {
    let cmd = wrapper().export_title_moves("rom.smc", "title.zst");
    assert_eq!(cmd, format!("{} -ExportTitleMoves rom.smc title.zst", TOOL));
}

#[test]
fn import_title_moves_renders_two_paths() {
    let cmd = wrapper().import_title_moves("rom.smc", "title.zst");
    assert_eq!(cmd, format!("{} -ImportTitleMoves rom.smc title.zst", TOOL));
}

#[test]
fn paths_are_inserted_verbatim() {
    let w = Wrapper::new(String::from("C:/Program Files/LM/lm.exe"));
    let cmd = w.export_gfx("C:/my hacks/my hack.smc");
    assert_eq!(cmd, "C:/Program Files/LM/lm.exe -ExportGFX C:/my hacks/my hack.smc");
}

#[test]
fn tool_path_returns_the_configured_path() {
    let w = Wrapper::new(String::from("lm.exe"));
    assert_eq!(w.tool_path(), "lm.exe");
}
