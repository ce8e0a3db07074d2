use vstd::prelude::*;

verus! {

/// The widget's configuration record, mirrored field for field as plain
/// values.
///
/// The native widget owns a C-compatible record with these user-facing
/// settings at its head; the host keeps that raw record in sync with this
/// one when it makes the foreign draw call. The three `*_installed` flags
/// stand for the record's nullable trampoline function-pointer slots: `true`
/// means the fixed trampoline for that slot is installed, `false` means the
/// slot is cleared and the widget skips the corresponding queries.
#[derive(Clone, Copy, PartialEq, Eq, Structural, Debug)]
pub struct EditorConfig {
    /// Set to `false` by the widget when a window-hosted instance is closed.
    pub open: bool,
    /// Disables the write path and all editing affordances.
    pub read_only: bool,
    /// Number of bytes shown per row.
    pub cols: i32,
    /// Shows the options button / context menu.
    pub opt_show_options: bool,
    /// Shows the footer previewing the selection in numeric representations.
    pub opt_show_data_preview: bool,
    /// Renders in HexII style: zero bytes elided, ASCII-range values inline.
    pub opt_show_hexii: bool,
    /// Shows the right-hand ASCII column.
    pub opt_show_ascii: bool,
    /// Dims zero-valued bytes.
    pub opt_grey_out_zeroes: bool,
    /// Renders hex digits in upper case.
    pub opt_upper_case_hex: bool,
    /// Extra gap every this many columns; 0 disables the gap.
    pub opt_mid_cols_count: i32,
    /// Fixed width of the address column; 0 means automatic.
    pub opt_addr_digits_count: i32,
    /// Background color (packed 32-bit RGBA) of highlighted bytes.
    pub highlight_color: u32,
    /// The read trampoline slot holds a function pointer.
    pub read_fn_installed: bool,
    /// The write trampoline slot holds a function pointer.
    pub write_fn_installed: bool,
    /// The highlight trampoline slot holds a function pointer.
    pub highlight_fn_installed: bool,
}

impl EditorConfig {
    /// The stock settings the widget gives a freshly created record:
    /// open, editable, 16 columns, options and ASCII column shown, zero
    /// bytes dimmed, upper-case digits, a gap every 8 columns, automatic
    /// address width, a translucent white highlight, and no trampolines
    /// installed.
    pub open spec fn widget_defaults() -> EditorConfig {
        EditorConfig {
            open: true,
            read_only: false,
            cols: 16,
            opt_show_options: true,
            opt_show_data_preview: false,
            opt_show_hexii: false,
            opt_show_ascii: true,
            opt_grey_out_zeroes: true,
            opt_upper_case_hex: true,
            opt_mid_cols_count: 8,
            opt_addr_digits_count: 0,
            highlight_color: 0x32FFFFFFu32,
            read_fn_installed: false,
            write_fn_installed: false,
            highlight_fn_installed: false,
        }
    }
}

impl Default for EditorConfig {
    /// A record initialized exactly as the widget initializes its own.
    fn default() -> (c: EditorConfig)
        ensures
            c == EditorConfig::widget_defaults(),
    {
        EditorConfig {
            open: true,
            read_only: false,
            cols: 16,
            opt_show_options: true,
            opt_show_data_preview: false,
            opt_show_hexii: false,
            opt_show_ascii: true,
            opt_grey_out_zeroes: true,
            opt_upper_case_hex: true,
            opt_mid_cols_count: 8,
            opt_addr_digits_count: 0,
            highlight_color: 0x32FFFFFFu32,
            read_fn_installed: false,
            write_fn_installed: false,
            highlight_fn_installed: false,
        }
    }
}

} // verus!
