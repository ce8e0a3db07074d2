use memory_editor::MemoryEditor;

type Read = fn(&Vec<u8>, usize) -> u8;
type Write = fn(&mut Vec<u8>, usize, u8);
type Highlight = fn(&Vec<u8>, usize) -> bool;
type PlainEditor = MemoryEditor<Read, Write, Highlight>;

#[test]
fn empty_range_draws_without_callbacks() {
    // byte-size 0, nothing attached, not read-only: no precondition triggers.
    let mut e: PlainEditor = MemoryEditor::new();
    assert!(e.draw_allowed());
    let call = e.draw();
    assert!(!call.windowed);
    assert_eq!(call.mem_size, 0);
    assert_eq!(call.base_addr, 0);
    assert!(e.raw.read_fn_installed);
    assert!(e.raw.write_fn_installed);
    assert!(!e.raw.highlight_fn_installed);
}

#[test]
fn nonempty_range_without_read_callback_is_refused() {
    let e: PlainEditor = MemoryEditor::new().mem_size(32).read_only(true);
    assert!(!e.draw_allowed());
    let e = e.read_only(false);
    assert!(!e.draw_allowed());
}

#[test]
fn editable_range_without_write_callback_is_refused() {
    let e: PlainEditor = MemoryEditor::new()
        .mem_size(32)
        .read_fn((|v: &Vec<u8>, off: usize| v[off]) as Read);
    assert!(!e.draw_allowed());
}

#[test]
fn read_only_range_draws_with_read_callback_alone() {
    let mut e: PlainEditor = MemoryEditor::new()
        .mem_size(16)
        .base_addr(0)
        .read_only(true)
        .read_fn((|_v: &Vec<u8>, off: usize| off as u8) as Read);
    assert!(e.draw_allowed());
    let call = e.draw();
    assert_eq!(call.mem_size, 16);
    assert_eq!(call.base_addr, 0);
    // The widget now queries a byte through the read trampoline.
    let data = vec![0u8; 16];
    assert_eq!(e.read_wrapper(&data, 5), 5);
}

#[test]
fn editable_range_with_both_callbacks_draws() {
    let mut e: PlainEditor = MemoryEditor::new()
        .mem_size(8)
        .read_fn((|v: &Vec<u8>, off: usize| v[off]) as Read)
        .write_fn((|v: &mut Vec<u8>, off: usize, d: u8| v[off] = d) as Write);
    assert!(e.draw_allowed());
    let call = e.draw();
    assert_eq!(call.mem_size, 8);
    assert!(e.raw.read_fn_installed);
    assert!(e.raw.write_fn_installed);
}

#[test]
fn highlight_trampoline_installed_iff_callback_attached() {
    let mut with: PlainEditor = MemoryEditor::new()
        .read_only(true)
        .mem_size(4)
        .read_fn((|v: &Vec<u8>, off: usize| v[off]) as Read)
        .highlight_fn((|_v: &Vec<u8>, off: usize| off % 2 == 0) as Highlight);
    with.draw();
    assert!(with.raw.highlight_fn_installed);

    let mut without: PlainEditor = MemoryEditor::new()
        .read_only(true)
        .mem_size(4)
        .read_fn((|v: &Vec<u8>, off: usize| v[off]) as Read);
    // A stale installation from an earlier draw must be cleared again.
    without.raw.highlight_fn_installed = true;
    without.draw();
    assert!(!without.raw.highlight_fn_installed);
}

#[test]
fn windowed_and_inline_entry_points_are_chosen_by_title() {
    let mut e: PlainEditor = MemoryEditor::new().draw_window(String::from("memory"));
    assert!(e.draw().windowed);
    let mut e = e.no_window();
    assert!(!e.draw().windowed);
}

#[test]
fn draw_raw_describes_the_configured_invocation() {
    let e: PlainEditor = MemoryEditor::new()
        .mem_size(64)
        .base_addr(0x2000)
        .draw_window(String::from("dump"));
    let call = e.draw_raw();
    assert!(call.windowed);
    assert_eq!(call.mem_size, 64);
    assert_eq!(call.base_addr, 0x2000);
    // Describing the invocation installs nothing by itself.
    assert!(!e.raw.read_fn_installed);
}

#[test]
fn read_trampoline_forwards_data_and_offset() {
    let e: PlainEditor = MemoryEditor::new()
        .read_only(true)
        .mem_size(4)
        .read_fn((|v: &Vec<u8>, off: usize| v[off]) as Read)
        .highlight_fn((|v: &Vec<u8>, off: usize| v[off] == 0xAA) as Highlight);
    let data = vec![0x10u8, 0x20, 0xAA, 0x40];
    assert_eq!(e.read_wrapper(&data, 0), 0x10);
    assert_eq!(e.read_wrapper(&data, 3), 0x40);
    assert!(e.highlight_wrapper(&data, 2));
    assert!(!e.highlight_wrapper(&data, 1));
}

#[test]
fn write_trampoline_forwards_data_offset_and_byte() {
    let e: PlainEditor = MemoryEditor::new()
        .mem_size(4)
        .read_fn((|v: &Vec<u8>, off: usize| v[off]) as Read)
        .write_fn((|v: &mut Vec<u8>, off: usize, d: u8| v[off] = d) as Write);
    let mut data = vec![0u8; 4];
    e.write_wrapper(&mut data, 2, 7);
    assert_eq!(data, vec![0, 0, 7, 0]);
}

#[test]
fn buffer_draw_with_attached_callback_is_refused() {
    // A mutable 4-byte buffer and a write callback attached earlier:
    // the request must be refused before any foreign call would be made.
    let e: PlainEditor = MemoryEditor::new()
        .write_fn((|v: &mut Vec<u8>, off: usize, d: u8| v[off] = d) as Write);
    assert!(!e.vec_draw_allowed());
    assert!(!e.vec_read_only_draw_allowed());

    let e: PlainEditor = MemoryEditor::new().read_fn((|v: &Vec<u8>, off: usize| v[off]) as Read);
    assert!(!e.vec_draw_allowed());

    let e: PlainEditor = MemoryEditor::new().highlight_fn((|_v: &Vec<u8>, _off: usize| true) as Highlight);
    assert!(!e.vec_draw_allowed());
}

#[test]
fn buffer_draw_adopts_the_buffer_length() {
    let mut e: PlainEditor = MemoryEditor::new().base_addr(0x100);
    assert!(e.vec_draw_allowed());
    let mut data = vec![1u8, 2, 3, 4];
    let call = e.draw_vec(&mut data);
    assert_eq!(e.mem_size, 4);
    assert_eq!(call.mem_size, 4);
    assert_eq!(call.base_addr, 0x100);
    assert!(!call.windowed);
    assert_eq!(data, vec![1, 2, 3, 4]);
}

#[test]
fn shared_buffer_draw_requires_the_read_only_flag() {
    let e: PlainEditor = MemoryEditor::new();
    assert!(!e.vec_read_only_draw_allowed());
    let mut e = e.read_only(true);
    assert!(e.vec_read_only_draw_allowed());
    let data = vec![9u8; 3];
    let call = e.draw_vec_read_only(&data);
    assert_eq!(e.mem_size, 3);
    assert_eq!(call.mem_size, 3);
}
