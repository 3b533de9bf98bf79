//! The wrapper around the external tool's command line: one method per
//! supported operation, each rendering the full command line — the
//! configured tool path, the operation keyword, and the arguments — exactly
//! as the tool expects it. Paths are inserted verbatim; numbers are rendered
//! in decimal; an omitted optional argument is dropped from the command line
//! entirely, never replaced by a placeholder token.

use vstd::prelude::*;
use vstd::string::StringExecFns;

use crate::text::{
    dec_digits, lemma_dec_digits_no_space, lemma_space_count_concat, lemma_space_count_singleton,
    token_count, u32_to_dec,
};
use crate::tokens::{
    compression_token, rom_size_token, CompressionFormat, LevelExportFlag, LevelImportFlag,
    RomSize,
};

verus! {

/// A wrapper around the external tool's command line functionality. It holds
/// the configured path to the tool executable and renders each operation
/// into the command line to run; the view of a `Wrapper` is the text of that
/// path.
#[derive(Debug)]
pub struct Wrapper {
    lunar_magic_path: String,
}

impl View for Wrapper {
    type V = Seq<char>;

    closed spec fn view(&self) -> Seq<char> {
        self.lunar_magic_path@
    }
}

/// The command line importing one level file, with the level number argument
/// dropped entirely when the caller omits it.
pub open spec fn import_level_cmd(
    tool: Seq<char>,
    rom: Seq<char>,
    mwl: Seq<char>,
    level: Option<u16>,
) -> Seq<char> {
    let base = tool + " "@ + "-ImportLevel "@ + rom + " "@ + mwl;
    match level {
        Some(n) => base + " "@ + dec_digits(n as nat),
        None => base,
    }
}

/// The command line importing a map16 file, with the `x,y` location argument
/// dropped entirely when the caller omits it.
pub open spec fn import_map16_cmd(
    tool: Seq<char>,
    rom: Seq<char>,
    map16: Seq<char>,
    level: u16,
    location: Option<(u32, u32)>,
) -> Seq<char> {
    let base = tool + " "@ + "-ImportMap16 "@ + rom + " "@ + map16 + " "@ + dec_digits(
        level as nat,
    );
    match location {
        Some(loc) => base + " "@ + dec_digits(loc.0 as nat) + ","@ + dec_digits(loc.1 as nat),
        None => base,
    }
}

/// The command line exporting multiple levels, with the flags argument
/// dropped entirely when the caller omits it: the tool then applies its own
/// default, which omission must preserve.
pub open spec fn export_mult_levels_cmd(
    tool: Seq<char>,
    rom: Seq<char>,
    mwl: Seq<char>,
    flags: Option<LevelExportFlag>,
) -> Seq<char> {
    let base = tool + " "@ + "-ExportMultLevels "@ + rom + " "@ + mwl;
    match flags {
        Some(f) => base + " "@ + dec_digits(f.bits as nat),
        None => base,
    }
}

/// The command line importing multiple levels, with the flags argument
/// dropped entirely when the caller omits it: the tool then applies its own
/// default, which omission must preserve.
pub open spec fn import_mult_levels_cmd(
    tool: Seq<char>,
    rom: Seq<char>,
    level_directory: Seq<char>,
    flags: Option<LevelImportFlag>,
) -> Seq<char> {
    let base = tool + " "@ + "-ImportMultLevels "@ + rom + " "@ + level_directory;
    match flags {
        Some(f) => base + " "@ + dec_digits(f.bits as nat),
        None => base,
    }
}

impl Wrapper {
    /// Returns a new [`Wrapper`].
    ///
    /// Note that there doesn't necessarily have to be a tool executable at
    /// the passed path at time of creation. It only needs to exist once the
    /// wrapper is used to perform operations.
    pub fn new(path: String) -> (r: Self)
        ensures
            r@ == path@,
    {
        Wrapper { lunar_magic_path: path }
    }

    /// The configured path to the tool executable.
    pub fn tool_path(&self) -> (r: &str)
        ensures
            r@ == self@,
    {
        self.lunar_magic_path.as_str()
    }

    /// The tool path followed by the operation keyword.
    fn begin(&self, keyword: &str) -> (r: String)
        ensures
            r@ == self@ + " "@ + keyword@,
    {
        let mut r = self.lunar_magic_path.clone();
        r.append(" ");
        r.append(keyword);
        proof {
            assert(r@ =~= self@ + " "@ + keyword@);
        }
        r
    }

    /// A command of one path argument.
    fn cmd1(&self, keyword: &str, a: &str) -> (r: String)
        ensures
            r@ == self@ + " "@ + keyword@ + a@,
    {
        let mut r = self.begin(keyword);
        r.append(a);
        proof {
            assert(r@ =~= self@ + " "@ + keyword@ + a@);
        }
        r
    }

    /// A command of two path arguments.
    fn cmd2(&self, keyword: &str, a: &str, b: &str) -> (r: String)
        ensures
            r@ == self@ + " "@ + keyword@ + a@ + " "@ + b@,
    {
        let mut r = self.begin(keyword);
        r.append(a);
        r.append(" ");
        r.append(b);
        proof {
            assert(r@ =~= self@ + " "@ + keyword@ + a@ + " "@ + b@);
        }
        r
    }

    /// A command of two path arguments followed by a decimal number.
    fn cmd2n(&self, keyword: &str, a: &str, b: &str, n: u32) -> (r: String)
        ensures
            r@ == self@ + " "@ + keyword@ + a@ + " "@ + b@ + " "@ + dec_digits(n as nat),
    {
        let mut r = self.cmd2(keyword, a, b);
        r.append(" ");
        let digits = u32_to_dec(n);
        r.append(digits.as_str());
        proof {
            assert(r@ =~= self@ + " "@ + keyword@ + a@ + " "@ + b@ + " "@ + dec_digits(n as nat));
        }
        r
    }

    /// Renders the command exporting Graphics from the passed ROM.
    pub fn export_gfx(&self, rom_path: &str) -> (cmd: String)
        ensures
            cmd@ == self@ + " "@ + "-ExportGFX "@ + rom_path@,
    {
        self.cmd1("-ExportGFX ", rom_path)
    }

    /// Renders the command exporting ExGraphics from the passed ROM.
    pub fn export_exgfx(&self, rom_path: &str) -> (cmd: String)
        ensures
            cmd@ == self@ + " "@ + "-ExportExGFX "@ + rom_path@,
    {
        self.cmd1("-ExportExGFX ", rom_path)
    }

    /// Renders the command importing Graphics into the passed ROM.
    pub fn import_gfx(&self, rom_path: &str) -> (cmd: String)
        ensures
            cmd@ == self@ + " "@ + "-ImportGFX "@ + rom_path@,
    {
        self.cmd1("-ImportGFX ", rom_path)
    }

    /// Renders the command importing ExGraphics into the passed ROM.
    pub fn import_exgfx(&self, rom_path: &str) -> (cmd: String)
        ensures
            cmd@ == self@ + " "@ + "-ImportExGFX "@ + rom_path@,
    {
        self.cmd1("-ImportExGFX ", rom_path)
    }

    /// Renders the command importing all graphics into the passed ROM.
    pub fn import_all_graphics(&self, rom_path: &str) -> (cmd: String)
        ensures
            cmd@ == self@ + " "@ + "-ImportAllGraphics "@ + rom_path@,
    {
        self.cmd1("-ImportAllGraphics ", rom_path)
    }

    /// Renders the command exporting the specified level number as an MWL
    /// file at the specified location from the passed ROM. The tool expects
    /// the level number in the range 0 to 511; out-of-range values are
    /// passed through and rejected by the tool itself.
    pub fn export_level(&self, rom_path: &str, mwl_path: &str, level_number: u16) -> (cmd: String)
        ensures
            cmd@ == self@ + " "@ + "-ExportLevel "@ + rom_path@ + " "@ + mwl_path@ + " "@
                + dec_digits(level_number as nat),
    {
        self.cmd2n("-ExportLevel ", rom_path, mwl_path, level_number as u32)
    }

    /// Renders the command importing the specified MWL file as the
    /// (optionally) specified level number into the passed ROM. When the
    /// level number is omitted, its argument is dropped from the command
    /// line entirely, and the tool takes the level number from the file.
    pub fn import_level(
        &self,
        rom_path: &str,
        mwl_path: &str,
        level_number: Option<u16>,
    ) -> (cmd: String)
        ensures
            cmd@ == import_level_cmd(self@, rom_path@, mwl_path@, level_number),
    {
        match level_number {
            Some(n) => self.cmd2n("-ImportLevel ", rom_path, mwl_path, n as u32),
            None => self.cmd2("-ImportLevel ", rom_path, mwl_path),
        }
    }

    /// Renders the command importing the specified map16 file into the
    /// passed ROM at the (optionally) specified X, Y map16 location, using
    /// the tileset of the specified level. When the location is omitted, its
    /// argument is dropped from the command line entirely.
    pub fn import_map16(
        &self,
        rom_path: &str,
        map16_path: &str,
        level_number: u16,
        location: Option<(u32, u32)>,
    ) -> (cmd: String)
        ensures
            cmd@ == import_map16_cmd(self@, rom_path@, map16_path@, level_number, location),
    {
        let base = self.cmd2n("-ImportMap16 ", rom_path, map16_path, level_number as u32);
        match location {
            Some(loc) => {
                let mut cmd = base;
                cmd.append(" ");
                let x_digits = u32_to_dec(loc.0);
                cmd.append(x_digits.as_str());
                cmd.append(",");
                let y_digits = u32_to_dec(loc.1);
                cmd.append(y_digits.as_str());
                proof {
                    assert(cmd@ =~= import_map16_cmd(
                        self@,
                        rom_path@,
                        map16_path@,
                        level_number,
                        location,
                    ));
                }
                cmd
            },
            None => base,
        }
    }

    /// Renders the command importing the passed custom palette file into the
    /// specified level in the passed ROM.
    pub fn import_custom_palette(
        &self,
        rom_path: &str,
        palette_path: &str,
        level_number: u16,
    ) -> (cmd: String)
        ensures
            cmd@ == self@ + " "@ + "-ImportCustomPalette "@ + rom_path@ + " "@ + palette_path@
                + " "@ + dec_digits(level_number as nat),
    {
        self.cmd2n("-ImportCustomPalette ", rom_path, palette_path, level_number as u32)
    }

    /// Renders the command exporting the shared palette from the passed ROM
    /// to the specified output path.
    pub fn export_shared_palette(&self, rom_path: &str, palette_path: &str) -> (cmd: String)
        ensures
            cmd@ == self@ + " "@ + "-ExportSharedPalette "@ + rom_path@ + " "@ + palette_path@,
    {
        self.cmd2("-ExportSharedPalette ", rom_path, palette_path)
    }

    /// Renders the command importing the passed shared palette into the
    /// passed ROM.
    pub fn import_shared_palette(&self, rom_path: &str, palette_path: &str) -> (cmd: String)
        ensures
            cmd@ == self@ + " "@ + "-ImportSharedPalette "@ + rom_path@ + " "@ + palette_path@,
    {
        self.cmd2("-ImportSharedPalette ", rom_path, palette_path)
    }

    /// Renders the command exporting all map16 data from the passed ROM to
    /// the specified output path.
    pub fn export_all_map16(&self, rom_path: &str, map16_path: &str) -> (cmd: String)
        ensures
            cmd@ == self@ + " "@ + "-ExportAllMap16 "@ + rom_path@ + " "@ + map16_path@,
    {
        self.cmd2("-ExportAllMap16 ", rom_path, map16_path)
    }

    /// Renders the command importing the passed all-map16 file into the
    /// passed ROM.
    pub fn import_all_map16(&self, rom_path: &str, map16_path: &str) -> (cmd: String)
        ensures
            cmd@ == self@ + " "@ + "-ImportAllMap16 "@ + rom_path@ + " "@ + map16_path@,
    {
        self.cmd2("-ImportAllMap16 ", rom_path, map16_path)
    }

    /// Renders the command exporting multiple levels from the passed ROM to
    /// the specified location, with the (optionally) specified flags. When
    /// the flags are omitted, their argument is dropped from the command
    /// line entirely and the tool uses its own default settings.
    pub fn export_mult_levels(
        &self,
        rom_path: &str,
        mwl_path: &str,
        flags: Option<LevelExportFlag>,
    ) -> (cmd: String)
        ensures
            cmd@ == export_mult_levels_cmd(self@, rom_path@, mwl_path@, flags),
    {
        match flags {
            Some(f) => self.cmd2n("-ExportMultLevels ", rom_path, mwl_path, f.bits),
            None => self.cmd2("-ExportMultLevels ", rom_path, mwl_path),
        }
    }

    /// Renders the command importing multiple levels into the passed ROM
    /// from the specified directory, with the (optionally) specified flags.
    /// When the flags are omitted, their argument is dropped from the
    /// command line entirely and the tool uses its own default settings.
    pub fn import_mult_levels(
        &self,
        rom_path: &str,
        level_directory: &str,
        flags: Option<LevelImportFlag>,
    ) -> (cmd: String)
        ensures
            cmd@ == import_mult_levels_cmd(self@, rom_path@, level_directory@, flags),
    {
        match flags {
            Some(f) => self.cmd2n("-ImportMultLevels ", rom_path, level_directory, f.bits),
            None => self.cmd2("-ImportMultLevels ", rom_path, level_directory),
        }
    }

    /// Renders the command expanding the passed ROM to the specified size.
    pub fn expand_rom(&self, rom_path: &str, rom_size: RomSize) -> (cmd: String)
        ensures
            cmd@ == self@ + " "@ + "-ExpandROM "@ + rom_path@ + " "@ + rom_size_token(rom_size),
    {
        let token = rom_size.to_string();
        self.cmd2("-ExpandROM ", rom_path, token.as_str())
    }

    /// Renders the command changing the compression of the passed ROM to the
    /// specified format.
    pub fn change_compression(
        &self,
        rom_path: &str,
        compression_format: CompressionFormat,
    ) -> (cmd: String)
        ensures
            cmd@ == self@ + " "@ + "-ChangeCompression "@ + rom_path@ + " "@ + compression_token(
                compression_format,
            ),
    {
        let token = compression_format.to_string();
        self.cmd2("-ChangeCompression ", rom_path, token.as_str())
    }

    /// Renders the command transferring level global ExAnimation data from
    /// the source ROM to the destination ROM.
    pub fn transfer_level_global_exanim(
        &self,
        dest_rom_path: &str,
        src_rom_path: &str,
    ) -> (cmd: String)
        ensures
            cmd@ == self@ + " "@ + "-TransferLevelGlobalExAnim "@ + dest_rom_path@ + " "@
                + src_rom_path@,
    {
        self.cmd2("-TransferLevelGlobalExAnim ", dest_rom_path, src_rom_path)
    }

    /// Renders the command transferring overworld data from the source ROM
    /// to the destination ROM.
    pub fn transfer_overworld(&self, dest_rom_path: &str, src_rom_path: &str) -> (cmd: String)
        ensures
            cmd@ == self@ + " "@ + "-TransferOverworld "@ + dest_rom_path@ + " "@ + src_rom_path@,
    {
        self.cmd2("-TransferOverworld ", dest_rom_path, src_rom_path)
    }

    /// Renders the command transferring title screen data from the source
    /// ROM to the destination ROM.
    pub fn transfer_title_screen(&self, dest_rom_path: &str, src_rom_path: &str) -> (cmd: String)
        ensures
            cmd@ == self@ + " "@ + "-TransferTitleScreen "@ + dest_rom_path@ + " "@
                + src_rom_path@,
    {
        self.cmd2("-TransferTitleScreen ", dest_rom_path, src_rom_path)
    }

    /// Renders the command transferring credits data from the source ROM to
    /// the destination ROM.
    pub fn transfer_credits(&self, dest_rom_path: &str, src_rom_path: &str) -> (cmd: String)
        ensures
            cmd@ == self@ + " "@ + "-TransferCredits "@ + dest_rom_path@ + " "@ + src_rom_path@,
    {
        self.cmd2("-TransferCredits ", dest_rom_path, src_rom_path)
    }

    /// Renders the command exporting title screen movement data from the
    /// passed ROM to the specified location.
    pub fn export_title_moves(&self, rom_path: &str, title_moves_path: &str) -> (cmd: String)
        ensures
            cmd@ == self@ + " "@ + "-ExportTitleMoves "@ + rom_path@ + " "@ + title_moves_path@,
    {
        self.cmd2("-ExportTitleMoves ", rom_path, title_moves_path)
    }

    /// Renders the command importing title screen movement data into the
    /// passed ROM from the specified location.
    pub fn import_title_moves(&self, rom_path: &str, title_moves_path: &str) -> (cmd: String)
        ensures
            cmd@ == self@ + " "@ + "-ImportTitleMoves "@ + rom_path@ + " "@ + title_moves_path@,
    {
        self.cmd2("-ImportTitleMoves ", rom_path, title_moves_path)
    }
}

/// `" "` is one space and `","` holds no space.
proof fn lemma_separator_literals()
    ensures
        " "@ == seq![' '],
        ","@ == seq![','],
{
    reveal_strlit(" ");
    reveal_strlit(",");
    assert(" "@ =~= seq![' ']);
    assert(","@ =~= seq![',']);
}

/// Supplying the optional level number to the import-level command adds
/// exactly one token; omitting it produces a command line with strictly
/// fewer tokens, never a placeholder token.
pub proof fn lemma_import_level_token_count(
    tool: Seq<char>,
    rom: Seq<char>,
    mwl: Seq<char>,
    n: u16,
)
    ensures
        token_count(import_level_cmd(tool, rom, mwl, Some(n))) == token_count(
            import_level_cmd(tool, rom, mwl, None),
        ) + 1,
{
    let base = import_level_cmd(tool, rom, mwl, None);
    lemma_separator_literals();
    lemma_space_count_singleton(' ');
    lemma_space_count_concat(base, " "@);
    lemma_space_count_concat(base + " "@, dec_digits(n as nat));
    lemma_dec_digits_no_space(n as nat);
}

/// Supplying the optional `x,y` location to the import-map16 command adds
/// exactly one token; omitting it produces a command line with strictly
/// fewer tokens, never a placeholder token.
pub proof fn lemma_import_map16_token_count(
    tool: Seq<char>,
    rom: Seq<char>,
    map16: Seq<char>,
    level: u16,
    x: u32,
    y: u32,
)
    ensures
        token_count(import_map16_cmd(tool, rom, map16, level, Some((x, y)))) == token_count(
            import_map16_cmd(tool, rom, map16, level, None),
        ) + 1,
{
    let base = import_map16_cmd(tool, rom, map16, level, None);
    lemma_separator_literals();
    lemma_space_count_singleton(' ');
    lemma_space_count_singleton(',');
    lemma_space_count_concat(base, " "@);
    lemma_space_count_concat(base + " "@, dec_digits(x as nat));
    lemma_space_count_concat(base + " "@ + dec_digits(x as nat), ","@);
    lemma_space_count_concat(base + " "@ + dec_digits(x as nat) + ","@, dec_digits(y as nat));
    lemma_dec_digits_no_space(x as nat);
    lemma_dec_digits_no_space(y as nat);
}

/// Supplying the optional flags to the export-multiple-levels command adds
/// exactly one token; omitting it produces a command line with strictly
/// fewer tokens, never a placeholder token.
pub proof fn lemma_export_mult_levels_token_count(
    tool: Seq<char>,
    rom: Seq<char>,
    mwl: Seq<char>,
    flags: LevelExportFlag,
)
    ensures
        token_count(export_mult_levels_cmd(tool, rom, mwl, Some(flags))) == token_count(
            export_mult_levels_cmd(tool, rom, mwl, None),
        ) + 1,
{
    let base = export_mult_levels_cmd(tool, rom, mwl, None);
    lemma_separator_literals();
    lemma_space_count_singleton(' ');
    lemma_space_count_concat(base, " "@);
    lemma_space_count_concat(base + " "@, dec_digits(flags.bits as nat));
    lemma_dec_digits_no_space(flags.bits as nat);
}

/// Supplying the optional flags to the import-multiple-levels command adds
/// exactly one token; omitting it produces a command line with strictly
/// fewer tokens, never a placeholder token.
pub proof fn lemma_import_mult_levels_token_count(
    tool: Seq<char>,
    rom: Seq<char>,
    level_directory: Seq<char>,
    flags: LevelImportFlag,
)
    ensures
        token_count(import_mult_levels_cmd(tool, rom, level_directory, Some(flags)))
            == token_count(import_mult_levels_cmd(tool, rom, level_directory, None)) + 1,
{
    let base = import_mult_levels_cmd(tool, rom, level_directory, None);
    lemma_separator_literals();
    lemma_space_count_singleton(' ');
    lemma_space_count_concat(base, " "@);
    lemma_space_count_concat(base + " "@, dec_digits(flags.bits as nat));
    lemma_dec_digits_no_space(flags.bits as nat);
}

} // verus!
