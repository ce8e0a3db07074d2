use vstd::prelude::*;

use crate::config::EditorConfig;

verus! {

/// What a draw request asks of the native widget: which entry point to
/// use and the byte range to address. The host performs exactly one
/// foreign draw invocation per value it is handed.
#[derive(Clone, Copy, PartialEq, Eq, Structural, Debug)]
pub struct DrawCall {
    /// `true`: the widget renders a titled, closable container of its own
    /// (the configured window name is the title). `false`: it renders
    /// inline into the caller's current layout region.
    pub windowed: bool,
    /// Total addressable length in bytes.
    pub mem_size: usize,
    /// Address origin added to every displayed offset.
    pub base_addr: usize,
}

/// The callback-marshaling adapter around the native hex/memory-editor
/// widget.
///
/// It holds the three optional user callbacks, the display configuration,
/// and the addressed byte range, and decides at each draw request whether
/// the configuration is sound and which trampoline slots to install. The
/// type parameters are the callback types: `R` reads a byte at an offset
/// of the user data, `W` writes a byte at an offset, `H` answers whether
/// an offset is highlighted.
pub struct MemoryEditor<R, W, H> {
    /// Title of the widget's own window; `None` draws inline instead.
    pub window_name: Option<String>,
    /// Optional read handler.
    pub read_fn: Option<R>,
    /// Optional write handler.
    pub write_fn: Option<W>,
    /// Optional highlight handler.
    pub highlight_fn: Option<H>,
    /// Total addressable length in bytes.
    pub mem_size: usize,
    /// Address origin added to every displayed offset.
    pub base_addr: usize,
    /// The widget's configuration record.
    pub raw: EditorConfig,
}

impl<R, W, H> MemoryEditor<R, W, H> {
    /// A fresh adapter: no callbacks attached, an empty range at origin
    /// zero, no window, and the widget's stock configuration.
    pub fn new() -> (e: MemoryEditor<R, W, H>)
        ensures
            e.window_name is None,
            e.read_fn is None,
            e.write_fn is None,
            e.highlight_fn is None,
            e.mem_size == 0,
            e.base_addr == 0,
            e.raw == EditorConfig::widget_defaults(),
    {
        MemoryEditor {
            window_name: None,
            read_fn: None,
            write_fn: None,
            highlight_fn: None,
            mem_size: 0,
            base_addr: 0,
            raw: Default::default(),
        }
    }

    /// Sets the addressable length in bytes (set automatically by the
    /// buffer entry points).
    pub fn mem_size(self, mem_size: usize) -> (r: Self)
        ensures
            r == (MemoryEditor { mem_size, ..self }),
    {
        MemoryEditor { mem_size, ..self }
    }

    /// Sets the address origin added to all displayed offsets.
    pub fn base_addr(self, base_addr: usize) -> (r: Self)
        ensures
            r == (MemoryEditor { base_addr, ..self }),
    {
        MemoryEditor { base_addr, ..self }
    }

    /// Disables any editing.
    pub fn read_only(self, read_only: bool) -> (r: Self)
        ensures
            r == (MemoryEditor { raw: (EditorConfig { read_only, ..self.raw }), ..self }),
    {
        MemoryEditor { raw: EditorConfig { read_only, ..self.raw }, ..self }
    }

    /// Sets the number of columns to display.
    pub fn cols(self, cols: i32) -> (r: Self)
        ensures
            r == (MemoryEditor { raw: (EditorConfig { cols, ..self.raw }), ..self }),
    {
        MemoryEditor { raw: EditorConfig { cols, ..self.raw }, ..self }
    }

    /// Shows or hides the options button / context menu.
    pub fn show_options(self, show_options: bool) -> (r: Self)
        ensures
            r == (MemoryEditor {
                raw: (EditorConfig { opt_show_options: show_options, ..self.raw }),
                ..self
            }),
    {
        MemoryEditor { raw: EditorConfig { opt_show_options: show_options, ..self.raw }, ..self }
    }

    /// Shows or hides the footer previewing the selected bytes in several
    /// numeric representations.
    pub fn show_data_preview(self, show_data_preview: bool) -> (r: Self)
        ensures
            r == (MemoryEditor {
                raw: (EditorConfig { opt_show_data_preview: show_data_preview, ..self.raw }),
                ..self
            }),
    {
        MemoryEditor {
            raw: EditorConfig { opt_show_data_preview: show_data_preview, ..self.raw },
            ..self
        }
    }

    /// Switches to HexII display: zero bytes hidden, ASCII-range values
    /// shown inline.
    pub fn show_hexii(self, show_hexii: bool) -> (r: Self)
        ensures
            r == (MemoryEditor {
                raw: (EditorConfig { opt_show_hexii: show_hexii, ..self.raw }),
                ..self
            }),
    {
        MemoryEditor { raw: EditorConfig { opt_show_hexii: show_hexii, ..self.raw }, ..self }
    }

    /// Shows or hides the right-hand ASCII column.
    pub fn show_ascii(self, show_ascii: bool) -> (r: Self)
        ensures
            r == (MemoryEditor {
                raw: (EditorConfig { opt_show_ascii: show_ascii, ..self.raw }),
                ..self
            }),
    {
        MemoryEditor { raw: EditorConfig { opt_show_ascii: show_ascii, ..self.raw }, ..self }
    }

    /// Dims zero-valued bytes.
    pub fn grey_out_zeroes(self, grey_out_zeroes: bool) -> (r: Self)
        ensures
            r == (MemoryEditor {
                raw: (EditorConfig { opt_grey_out_zeroes: grey_out_zeroes, ..self.raw }),
                ..self
            }),
    {
        MemoryEditor {
            raw: EditorConfig { opt_grey_out_zeroes: grey_out_zeroes, ..self.raw },
            ..self
        }
    }

    /// Renders hex digits as "FF" instead of "ff".
    pub fn upper_case_hex(self, upper_case_hex: bool) -> (r: Self)
        ensures
            r == (MemoryEditor {
                raw: (EditorConfig { opt_upper_case_hex: upper_case_hex, ..self.raw }),
                ..self
            }),
    {
        MemoryEditor { raw: EditorConfig { opt_upper_case_hex: upper_case_hex, ..self.raw }, ..self }
    }

    /// Adds extra spacing every this many columns; 0 disables it.
    pub fn mid_cols_count(self, mid_cols_count: i32) -> (r: Self)
        ensures
            r == (MemoryEditor {
                raw: (EditorConfig { opt_mid_cols_count: mid_cols_count, ..self.raw }),
                ..self
            }),
    {
        MemoryEditor { raw: EditorConfig { opt_mid_cols_count: mid_cols_count, ..self.raw }, ..self }
    }

    /// Sets the number of address digits to display; 0 computes it from
    /// the largest displayed address.
    pub fn addr_digits_count(self, addr_digits_count: i32) -> (r: Self)
        ensures
            r == (MemoryEditor {
                raw: (EditorConfig { opt_addr_digits_count: addr_digits_count, ..self.raw }),
                ..self
            }),
    {
        MemoryEditor {
            raw: EditorConfig { opt_addr_digits_count: addr_digits_count, ..self.raw },
            ..self
        }
    }

    /// Sets the background color (packed 32-bit RGBA) of highlighted bytes.
    pub fn highlight_color(self, color: u32) -> (r: Self)
        ensures
            r == (MemoryEditor {
                raw: (EditorConfig { highlight_color: color, ..self.raw }),
                ..self
            }),
    {
        MemoryEditor { raw: EditorConfig { highlight_color: color, ..self.raw }, ..self }
    }

    /// Attaches the handler that reads a byte of the user data.
    pub fn read_fn(self, read_fn: R) -> (r: Self)
        ensures
            r == (MemoryEditor { read_fn: Some(read_fn), ..self }),
    {
        MemoryEditor { read_fn: Some(read_fn), ..self }
    }

    /// Attaches the handler that writes a byte of the user data.
    pub fn write_fn(self, write_fn: W) -> (r: Self)
        ensures
            r == (MemoryEditor { write_fn: Some(write_fn), ..self }),
    {
        MemoryEditor { write_fn: Some(write_fn), ..self }
    }

    /// Attaches the handler that answers whether an offset is highlighted
    /// (supports non-contiguous highlighting).
    pub fn highlight_fn(self, highlight_fn: H) -> (r: Self)
        ensures
            r == (MemoryEditor { highlight_fn: Some(highlight_fn), ..self }),
    {
        MemoryEditor { highlight_fn: Some(highlight_fn), ..self }
    }

    /// Draw requests create a closable window with this title.
    pub fn draw_window(self, window_name: String) -> (r: Self)
        ensures
            r == (MemoryEditor { window_name: Some(window_name), ..self }),
    {
        MemoryEditor { window_name: Some(window_name), ..self }
    }

    /// Draw requests render inline instead of creating a window.
    pub fn no_window(self) -> (r: Self)
        ensures
            r == (MemoryEditor { window_name: None, ..self }),
    {
        MemoryEditor { window_name: None, ..self }
    }

    /// The widget's self-reported visibility flag: cleared when the user
    /// closes a window-hosted instance. Meaningful only after drawing in
    /// a window.
    pub fn open(&self) -> (b: bool)
        ensures
            b == self.raw.open,
    {
        self.raw.open
    }

    /// A non-empty range can be displayed only with a read handler.
    pub open spec fn read_requirement_met(self) -> bool {
        self.read_fn is Some || self.mem_size == 0
    }

    /// A non-empty, editable range can be displayed only with a write
    /// handler.
    pub open spec fn write_requirement_met(self) -> bool {
        self.write_fn is Some || self.raw.read_only || self.mem_size == 0
    }

    /// A callback-marshaled draw request is sound: invoking the widget
    /// otherwise would reach an absent handler inside a trampoline.
    pub open spec fn can_draw(self) -> bool {
        self.read_requirement_met() && self.write_requirement_met()
    }

    /// A direct-buffer draw request is sound: the widget reads and writes
    /// the buffer itself, so no callback may be attached.
    pub open spec fn can_draw_vec(self) -> bool {
        self.read_fn is None && self.write_fn is None && self.highlight_fn is None
    }

    /// A direct shared-buffer draw request is sound: on top of the
    /// direct-buffer rule, the read-only flag must be set, else the widget
    /// would write into memory the caller did not hand out as mutable.
    pub open spec fn can_draw_vec_read_only(self) -> bool {
        self.can_draw_vec() && self.raw.read_only
    }

    /// The foreign invocation a draw request of this adapter asks for.
    pub open spec fn draw_call_of(self) -> DrawCall {
        DrawCall {
            windowed: self.window_name is Some,
            mem_size: self.mem_size,
            base_addr: self.base_addr,
        }
    }

    /// Whether a callback-marshaled draw request would be accepted. Hosts
    /// check this before `draw` and treat `false` as a programming error.
    pub fn draw_allowed(&self) -> (ok: bool)
        ensures
            ok == self.can_draw(),
    {
        (self.read_fn.is_some() || self.mem_size == 0) && (self.write_fn.is_some()
            || self.raw.read_only || self.mem_size == 0)
    }

    /// Whether a direct mutable-buffer draw request would be accepted.
    pub fn vec_draw_allowed(&self) -> (ok: bool)
        ensures
            ok == self.can_draw_vec(),
    {
        self.read_fn.is_none() && self.write_fn.is_none() && self.highlight_fn.is_none()
    }

    /// Whether a direct shared-buffer draw request would be accepted.
    pub fn vec_read_only_draw_allowed(&self) -> (ok: bool)
        ensures
            ok == self.can_draw_vec_read_only(),
    {
        self.vec_draw_allowed() && self.raw.read_only
    }

    /// Chooses the widget entry point: windowed when a window title is
    /// configured, inline otherwise, with the configured byte range.
    pub fn draw_raw(&self) -> (call: DrawCall)
        ensures
            call == self.draw_call_of(),
    {
        DrawCall {
            windowed: self.window_name.is_some(),
            mem_size: self.mem_size,
            base_addr: self.base_addr,
        }
    }

    /// Validates a callback-marshaled draw request and prepares the
    /// configuration record for it: the read and write trampolines are
    /// always installed, the highlight trampoline exactly when a highlight
    /// handler is attached (a cleared slot makes the widget skip highlight
    /// queries). Returns the foreign invocation to perform; the host packs
    /// the three handler slots and the user data into the opaque bundle it
    /// passes along.
    pub fn draw(&mut self) -> (call: DrawCall)
        requires
            old(self).can_draw(),
        ensures
            *final(self) == (MemoryEditor {
                raw: (EditorConfig {
                    read_fn_installed: true,
                    write_fn_installed: true,
                    highlight_fn_installed: old(self).highlight_fn is Some,
                    ..old(self).raw
                }),
                ..*old(self)
            }),
            final(self).raw.highlight_fn_installed <==> old(self).highlight_fn is Some,
            call == old(self).draw_call_of(),
    {
        self.raw.read_fn_installed = true;
        self.raw.write_fn_installed = true;
        self.raw.highlight_fn_installed = self.highlight_fn.is_some();
        self.draw_raw()
    }

    /// Validates a direct mutable-buffer draw request: the widget is given
    /// the buffer itself and performs raw reads and writes, bypassing the
    /// trampoline path, so no callback may be attached. Adopts the buffer's
    /// length as the addressable range and returns the foreign invocation
    /// to perform; the buffer is handed to the widget untouched.
    pub fn draw_vec(&mut self, data: &mut Vec<u8>) -> (call: DrawCall)
        requires
            old(self).can_draw_vec(),
        ensures
            *final(self) == (MemoryEditor { mem_size: old(data)@.len() as usize, ..*old(self) }),
            *final(data) == *old(data),
            call == final(self).draw_call_of(),
    {
        self.mem_size = data.len();
        self.draw_raw()
    }

    /// Validates a direct shared-buffer draw request: as `draw_vec`, and
    /// the read-only flag must additionally be set so the widget cannot
    /// write through the shared reference.
    pub fn draw_vec_read_only(&mut self, data: &Vec<u8>) -> (call: DrawCall)
        requires
            old(self).can_draw_vec_read_only(),
        ensures
            *final(self) == (MemoryEditor { mem_size: data@.len() as usize, ..*old(self) }),
            call == final(self).draw_call_of(),
    {
        self.mem_size = data.len();
        self.draw_raw()
    }

    /// The forwarding the fixed read trampoline performs once the opaque
    /// bundle is reconstituted: unwrap the read slot and invoke it on the
    /// user data and the offset the widget asked for. Reaching it with an
    /// empty slot is a contract violation, ruled out here by precondition
    /// and at the boundary by `draw`'s validation.
    pub fn read_wrapper<T>(&self, user_data: &T, off: usize) -> (r: u8) where
        R: Fn(&T, usize) -> u8,

        requires
            self.read_fn is Some,
            call_requires(self.read_fn->0, (user_data, off)),
        ensures
            call_ensures(self.read_fn->0, (user_data, off), r),
    {
        match &self.read_fn {
            Some(f) => f(user_data, off),
            None => vstd::pervasive::unreached(),
        }
    }

    /// The forwarding the fixed write trampoline performs: unwrap the
    /// write slot and invoke it on the user data, the offset and the byte
    /// the widget hands over. The user data ends in a state the attached
    /// handler can leave it in.
    pub fn write_wrapper<T>(&self, user_data: &mut T, off: usize, d: u8) where
        W: Fn(&mut T, usize, u8),

        requires
            self.write_fn is Some,
            forall|p: &mut T| *p == *old(user_data) ==> call_requires(self.write_fn->0, (p, off, d)),
        ensures
            exists|p: &mut T|
                {
                    &&& *p == *old(user_data)
                    &&& *final(p) == *final(user_data)
                    &&& call_ensures(self.write_fn->0, (p, off, d), ())
                },
    {
        match &self.write_fn {
            Some(f) => f(user_data, off, d),
            None => vstd::pervasive::unreached(),
        }
    }

    /// The forwarding the fixed highlight trampoline performs: unwrap the
    /// highlight slot and invoke it on the user data and the offset.
    pub fn highlight_wrapper<T>(&self, user_data: &T, off: usize) -> (r: bool) where
        H: Fn(&T, usize) -> bool,

        requires
            self.highlight_fn is Some,
            call_requires(self.highlight_fn->0, (user_data, off)),
        ensures
            call_ensures(self.highlight_fn->0, (user_data, off), r),
    {
        match &self.highlight_fn {
            Some(f) => f(user_data, off),
            None => vstd::pervasive::unreached(),
        }
    }
}

/// A draw request over an empty range is accepted whatever callbacks are
/// attached: a zero-length range needs no handler.
pub proof fn lemma_empty_range_draws_without_callbacks<R, W, H>(e: MemoryEditor<R, W, H>)
    requires
        e.mem_size == 0,
    ensures
        e.can_draw(),
{
}

/// A draw request over a non-empty range without a read handler is
/// refused, whatever the other settings.
pub proof fn lemma_nonempty_range_requires_read<R, W, H>(e: MemoryEditor<R, W, H>)
    requires
        e.mem_size > 0,
        e.read_fn is None,
    ensures
        !e.can_draw(),
{
}

/// A draw request over a non-empty, editable range without a write
/// handler is refused.
pub proof fn lemma_editable_range_requires_write<R, W, H>(e: MemoryEditor<R, W, H>)
    requires
        e.mem_size > 0,
        !e.raw.read_only,
        e.write_fn is None,
    ensures
        !e.can_draw(),
{
}

/// With the read-only flag set, a read handler alone suffices for a
/// non-empty range: no write handler is demanded.
pub proof fn lemma_read_only_draws_with_read_alone<R, W, H>(e: MemoryEditor<R, W, H>)
    requires
        e.mem_size > 0,
        e.raw.read_only,
        e.read_fn is Some,
    ensures
        e.can_draw(),
{
}

/// A direct-buffer draw request is refused as soon as any of the read,
/// write or highlight callbacks is attached, whatever the buffer holds.
pub proof fn lemma_buffer_draw_refuses_callbacks<R, W, H>(e: MemoryEditor<R, W, H>)
    requires
        e.read_fn is Some || e.write_fn is Some || e.highlight_fn is Some,
    ensures
        !e.can_draw_vec(),
        !e.can_draw_vec_read_only(),
{
}

/// A direct shared-buffer draw request is refused unless the read-only
/// flag is set, whatever the buffer holds.
pub proof fn lemma_shared_buffer_draw_requires_read_only_flag<R, W, H>(e: MemoryEditor<R, W, H>)
    requires
        !e.raw.read_only,
    ensures
        !e.can_draw_vec_read_only(),
{
}

} // verus!
