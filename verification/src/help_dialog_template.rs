//! The help dialog's template: the bytes from which Windows builds the dialog.
//!
//! The dialog is 350 by 300 dialog units and has a title, a description that scrolls, tips, and a
//! button that closes it.

use vstd::prelude::*;

use crate::wide::{to_wide_null, utf16, wide_null};

verus! {

/// The dialog's resource.
pub const IDD_HELP: u32 = 4000;

/// The title.
pub const IDC_HELP_TITLE: u16 = 4001;

/// The description.
pub const IDC_HELP_DESCRIPTION: u16 = 4002;

/// The tips.
pub const IDC_HELP_TIPS: u16 = 4003;

/// The button that closes the dialog.
pub const IDC_HELP_CLOSE: u16 = 4004;

/// The dialog's width in dialog units.
pub const DLG_WIDTH: u16 = 350;

/// The dialog's height in dialog units.
pub const DLG_HEIGHT: u16 = 300;

// Styles of dialogs and windows.
pub const DS_MODALFRAME: u32 = 0x0000_0080;

pub const DS_SETFONT: u32 = 0x0000_0040;

pub const WS_POPUP: u32 = 0x8000_0000;

pub const WS_CAPTION: u32 = 0x00C0_0000;

pub const WS_SYSMENU: u32 = 0x0008_0000;

pub const WS_VISIBLE: u32 = 0x1000_0000;

pub const WS_CHILD: u32 = 0x4000_0000;

// Styles of controls.
pub const ES_MULTILINE: u32 = 0x0004;

pub const ES_READONLY: u32 = 0x0800;

pub const ES_AUTOVSCROLL: u32 = 0x0040;

pub const WS_VSCROLL: u32 = 0x0020_0000;

pub const WS_BORDER: u32 = 0x0080_0000;

pub const WS_TABSTOP: u32 = 0x0001_0000;

pub const BS_PUSHBUTTON: u32 = 0x0000_0000;

pub const SS_LEFT: u32 = 0x0000_0000;

/// The class of buttons.
pub const CLASS_BUTTON: u16 = 0x0080;

/// The class of edit controls.
pub const CLASS_EDIT: u16 = 0x0081;

/// The class of static texts.
pub const CLASS_STATIC: u16 = 0x0082;

/// The style of the dialog.
pub const DIALOG_STYLE: u32 = DS_MODALFRAME | DS_SETFONT | WS_POPUP | WS_CAPTION | WS_SYSMENU;

/// The style of static texts.
pub const LABEL_STYLE: u32 = WS_CHILD | WS_VISIBLE | SS_LEFT;

/// The style of the description.
pub const DESCRIPTION_STYLE: u32 = WS_CHILD | WS_VISIBLE | WS_BORDER | WS_VSCROLL | WS_TABSTOP
    | ES_MULTILINE | ES_READONLY | ES_AUTOVSCROLL;

/// The style of the button.
pub const BUTTON_STYLE: u32 = WS_CHILD | WS_VISIBLE | WS_TABSTOP | BS_PUSHBUTTON;

/// The dialog's style has each of the flags that it is made of.
pub proof fn dialog_style_has_its_flags()
    ensures
        DIALOG_STYLE == 0x80C8_00C0u32,
        DIALOG_STYLE & DS_MODALFRAME == DS_MODALFRAME,
        DIALOG_STYLE & DS_SETFONT == DS_SETFONT,
        DIALOG_STYLE & WS_POPUP == WS_POPUP,
        DIALOG_STYLE & WS_CAPTION == WS_CAPTION,
        DIALOG_STYLE & WS_SYSMENU == WS_SYSMENU,
        DIALOG_STYLE & WS_VISIBLE == 0,
{
    assert(0x80u32 | 0x40u32 | 0x8000_0000u32 | 0x00C0_0000u32 | 0x0008_0000u32 == 0x80C8_00C0u32)
        by (bit_vector);
    assert(0x80C8_00C0u32 & 0x80u32 == 0x80u32) by (bit_vector);
    assert(0x80C8_00C0u32 & 0x40u32 == 0x40u32) by (bit_vector);
    assert(0x80C8_00C0u32 & 0x8000_0000u32 == 0x8000_0000u32) by (bit_vector);
    assert(0x80C8_00C0u32 & 0x00C0_0000u32 == 0x00C0_0000u32) by (bit_vector);
    assert(0x80C8_00C0u32 & 0x0008_0000u32 == 0x0008_0000u32) by (bit_vector);
    assert(0x80C8_00C0u32 & 0x1000_0000u32 == 0) by (bit_vector);
}

/// A 16-bit number as bytes, the low one first.
pub open spec fn le16(v: u16) -> Seq<u8> {
    seq![(v % 256) as u8, (v / 256) as u8]
}

/// A 32-bit number as bytes, the lowest one first.
pub open spec fn le32(v: u32) -> Seq<u8> {
    seq![
        (v % 256) as u8,
        (v / 256 % 256) as u8,
        (v / 65536 % 256) as u8,
        (v / 16777216) as u8,
    ]
}

/// Code units as bytes.
pub open spec fn le_units(units: Seq<u16>) -> Seq<u8>
    decreases units.len(),
{
    if units.len() == 0 {
        Seq::empty()
    } else {
        le_units(units.drop_last()) + le16(units.last())
    }
}

/// A text with a terminating zero, in UTF-16, as bytes.
pub open spec fn wide_bytes(s: Seq<char>) -> Seq<u8> {
    le_units(wide_null(s))
}

/// The zeros that bring a length to a multiple of four.
pub open spec fn padding(len: nat) -> Seq<u8> {
    Seq::new(((4 - len % 4) % 4) as nat, |i: int| 0u8)
}

/// A byte sequence, filled up with zeros to a multiple of four bytes.
pub open spec fn aligned(bytes: Seq<u8>) -> Seq<u8> {
    bytes + padding(bytes.len())
}

/// A control of the dialog.
#[derive(Debug, Clone, Copy)]
pub struct DialogItem {
    pub style: u32,
    pub ex_style: u32,
    pub x: u16,
    pub y: u16,
    pub cx: u16,
    pub cy: u16,
    pub id: u16,
    pub class_atom: u16,
    pub text: &'static str,
}

/// The bytes of a control: its style, place, size and identifier, its class, its text, and no
/// creation data.
#[verifier::opaque]
pub open spec fn item_bytes(item: DialogItem) -> Seq<u8> {
    le32(item.style) + le32(item.ex_style) + le16(item.x) + le16(item.y) + le16(item.cx) + le16(
        item.cy,
    ) + le16(item.id) + le16(0xFFFF) + le16(item.class_atom) + wide_bytes(item.text@) + le16(0)
}

/// The title, from (10, 10) to (330, 24).
pub open spec fn title_item() -> DialogItem {
    DialogItem {
        style: LABEL_STYLE,
        ex_style: 0,
        x: 10,
        y: 10,
        cx: 320,
        cy: 14,
        id: IDC_HELP_TITLE,
        class_atom: CLASS_STATIC,
        text: "",
    }
}

/// The description, from (10, 30) to (330, 230).
pub open spec fn description_item() -> DialogItem {
    DialogItem {
        style: DESCRIPTION_STYLE,
        ex_style: 0,
        x: 10,
        y: 30,
        cx: 320,
        cy: 200,
        id: IDC_HELP_DESCRIPTION,
        class_atom: CLASS_EDIT,
        text: "",
    }
}

/// The tips, from (10, 235) to (330, 275).
pub open spec fn tips_item() -> DialogItem {
    DialogItem {
        style: LABEL_STYLE,
        ex_style: 0,
        x: 10,
        y: 235,
        cx: 320,
        cy: 40,
        id: IDC_HELP_TIPS,
        class_atom: CLASS_STATIC,
        text: "",
    }
}

/// The button, 60 wide and 14 high, at (280, 280).
pub open spec fn close_item() -> DialogItem {
    DialogItem {
        style: BUTTON_STYLE,
        ex_style: 0,
        x: 280,
        y: 280,
        cx: 60,
        cy: 14,
        id: IDC_HELP_CLOSE,
        class_atom: CLASS_BUTTON,
        text: "Close",
    }
}

/// The dialog's own part of the template: its style, the number of its controls, its place and
/// size, no menu, the default class, its title and its font.
#[verifier::opaque]
pub open spec fn header_bytes() -> Seq<u8> {
    le32(DIALOG_STYLE) + le32(0) + le16(4) + le16(0) + le16(0) + le16(DLG_WIDTH) + le16(DLG_HEIGHT)
        + le16(0) + le16(0) + wide_bytes("SpamBayes Help"@) + le16(8) + wide_bytes(
        "MS Shell Dlg"@,
    )
}

/// The template: the header, and each control at a multiple of four bytes.
pub open spec fn template_bytes() -> Seq<u8> {
    let with_title = aligned(header_bytes()) + item_bytes(title_item());
    let with_description = aligned(with_title) + item_bytes(description_item());
    let with_tips = aligned(with_description) + item_bytes(tips_item());
    aligned(with_tips) + item_bytes(close_item())
}

/// Appends a 16-bit number, the low byte first.
pub fn push_u16(buf: &mut Vec<u8>, val: u16)
    ensures
        final(buf)@ == old(buf)@ + le16(val),
{
    buf.push((val % 256) as u8);
    buf.push((val / 256) as u8);
    assert(buf@ =~= old(buf)@ + le16(val));
}

/// Appends a 32-bit number, the lowest byte first.
pub fn push_u32(buf: &mut Vec<u8>, val: u32)
    ensures
        final(buf)@ == old(buf)@ + le32(val),
{
    buf.push((val % 256) as u8);
    buf.push((val / 256 % 256) as u8);
    buf.push((val / 65536 % 256) as u8);
    buf.push((val / 16777216) as u8);
    assert(buf@ =~= old(buf)@ + le32(val));
}

/// Appends a text with a terminating zero, in UTF-16.
pub fn push_wide_string(buf: &mut Vec<u8>, s: &str)
    ensures
        final(buf)@ == old(buf)@ + wide_bytes(s@),
{
    let units = to_wide_null(s);
    let ghost before = buf@;
    let mut i: usize = 0;
    assert(before + le_units(units@.take(0)) =~= before);
    while i < units.len()
        invariant
            i <= units.len(),
            buf@ == before + le_units(units@.take(i as int)),
        decreases units.len() - i,
    {
        push_u16(buf, units[i]);
        i = i + 1;
        assert(units@.take(i as int).drop_last() =~= units@.take(i - 1));
        assert(buf@ =~= before + le_units(units@.take(i as int)));
    }
    assert(units@.take(units.len() as int) =~= units@);
}

/// Appends zeros up to a multiple of four bytes.
pub fn align_dword(buf: &mut Vec<u8>)
    ensures
        final(buf)@ == aligned(old(buf)@),
        final(buf)@.len() % 4 == 0,
{
    let ghost before = buf@;
    while buf.len() % 4 != 0
        invariant
            before.len() <= buf@.len() <= before.len() + padding(before.len()).len(),
            buf@ =~= before + padding(before.len()).take(buf@.len() - before.len()),
        decreases before.len() + padding(before.len()).len() - buf@.len(),
    {
        buf.push(0);
    }
    assert(buf@ =~= aligned(before));
}

/// Appends a control.
pub fn push_dlg_item(buf: &mut Vec<u8>, item: DialogItem)
    ensures
        final(buf)@ == old(buf)@ + item_bytes(item),
{
    let ghost before = buf@;
    push_u32(buf, item.style);
    push_u32(buf, item.ex_style);
    push_u16(buf, item.x);
    push_u16(buf, item.y);
    push_u16(buf, item.cx);
    push_u16(buf, item.cy);
    push_u16(buf, item.id);
    push_u16(buf, 0xFFFF);
    push_u16(buf, item.class_atom);
    push_wide_string(buf, item.text);
    push_u16(buf, 0);
    reveal(item_bytes);
    assert(buf@ =~= before + item_bytes(item));
}

/// The help dialog's template.
pub fn create_help_dialog_template() -> (template: Vec<u8>)
    ensures
        template@ == template_bytes(),
{
    let mut buf: Vec<u8> = Vec::new();
    push_u32(&mut buf, DIALOG_STYLE);
    push_u32(&mut buf, 0);
    push_u16(&mut buf, 4);
    push_u16(&mut buf, 0);
    push_u16(&mut buf, 0);
    push_u16(&mut buf, DLG_WIDTH);
    push_u16(&mut buf, DLG_HEIGHT);
    push_u16(&mut buf, 0);
    push_u16(&mut buf, 0);
    push_wide_string(&mut buf, "SpamBayes Help");
    push_u16(&mut buf, 8);
    push_wide_string(&mut buf, "MS Shell Dlg");
    reveal(header_bytes);
    assert(buf@ =~= header_bytes());
    align_dword(&mut buf);
    push_dlg_item(
        &mut buf,
        DialogItem {
            style: LABEL_STYLE,
            ex_style: 0,
            x: 10,
            y: 10,
            cx: 320,
            cy: 14,
            id: IDC_HELP_TITLE,
            class_atom: CLASS_STATIC,
            text: "",
        },
    );
    align_dword(&mut buf);
    push_dlg_item(
        &mut buf,
        DialogItem {
            style: DESCRIPTION_STYLE,
            ex_style: 0,
            x: 10,
            y: 30,
            cx: 320,
            cy: 200,
            id: IDC_HELP_DESCRIPTION,
            class_atom: CLASS_EDIT,
            text: "",
        },
    );
    align_dword(&mut buf);
    push_dlg_item(
        &mut buf,
        DialogItem {
            style: LABEL_STYLE,
            ex_style: 0,
            x: 10,
            y: 235,
            cx: 320,
            cy: 40,
            id: IDC_HELP_TIPS,
            class_atom: CLASS_STATIC,
            text: "",
        },
    );
    align_dword(&mut buf);
    push_dlg_item(
        &mut buf,
        DialogItem {
            style: BUTTON_STYLE,
            ex_style: 0,
            x: 280,
            y: 280,
            cx: 60,
            cy: 14,
            id: IDC_HELP_CLOSE,
            class_atom: CLASS_BUTTON,
            text: "Close",
        },
    );
    buf
}

/// The 16-bit number at a place in a byte sequence.
pub open spec fn u16_at(bytes: Seq<u8>, at: int) -> int {
    bytes[at] + 256 * bytes[at + 1]
}

/// The 32-bit number at a place in a byte sequence.
pub open spec fn u32_at(bytes: Seq<u8>, at: int) -> int {
    u16_at(bytes, at) + 65536 * u16_at(bytes, at + 2)
}

proof fn lemma_le_units_len(units: Seq<u16>)
    ensures
        le_units(units).len() == 2 * units.len(),
    decreases units.len(),
{
    if units.len() > 0 {
        lemma_le_units_len(units.drop_last());
    }
}

proof fn lemma_ascii_len(s: Seq<char>)
    requires
        forall|i: int| 0 <= i < s.len() ==> (#[trigger] s[i]) as int <= 127,
    ensures
        utf16(s).len() == s.len(),
        wide_bytes(s).len() == 2 * (s.len() + 1),
    decreases s.len(),
{
    if s.len() > 0 {
        lemma_ascii_len(s.drop_last());
    }
    lemma_le_units_len(wide_null(s));
}

proof fn lemma_le32_reads_back(v: u32)
    ensures
        u32_at(le32(v), 0) == v,
{
}

/// Where a control of the template stands and what its fields read.
pub open spec fn item_stands_at(bytes: Seq<u8>, at: int, item: DialogItem) -> bool {
    &&& at % 4 == 0
    &&& u32_at(bytes, at) == item.style
    &&& u32_at(bytes, at + 4) == item.ex_style
    &&& u16_at(bytes, at + 8) == item.x
    &&& u16_at(bytes, at + 10) == item.y
    &&& u16_at(bytes, at + 12) == item.cx
    &&& u16_at(bytes, at + 14) == item.cy
    &&& u16_at(bytes, at + 16) == item.id
    &&& u16_at(bytes, at + 18) == 0xFFFF
    &&& u16_at(bytes, at + 20) == item.class_atom
}

proof fn lemma_item_fields(before: Seq<u8>, item: DialogItem, after: Seq<u8>)
    requires
        before.len() % 4 == 0,
    ensures
        item_stands_at(before + item_bytes(item) + after, before.len() as int, item),
{
    let bytes = before + item_bytes(item) + after;
    let at = before.len() as int;
    let fields = item_bytes(item);
    reveal(item_bytes);
    assert(bytes[at] == fields[0] && bytes[at + 1] == fields[1] && bytes[at + 2] == fields[2]
        && bytes[at + 3] == fields[3]);
    assert(bytes[at + 4] == fields[4] && bytes[at + 5] == fields[5] && bytes[at + 6] == fields[6]
        && bytes[at + 7] == fields[7]);
    assert(bytes[at + 8] == fields[8] && bytes[at + 9] == fields[9] && bytes[at + 10] == fields[10]
        && bytes[at + 11] == fields[11]);
    assert(bytes[at + 12] == fields[12] && bytes[at + 13] == fields[13] && bytes[at + 14]
        == fields[14] && bytes[at + 15] == fields[15]);
    assert(bytes[at + 16] == fields[16] && bytes[at + 17] == fields[17] && bytes[at + 18]
        == fields[18] && bytes[at + 19] == fields[19]);
    assert(bytes[at + 20] == fields[20] && bytes[at + 21] == fields[21]);
    lemma_le32_reads_back(item.style);
    lemma_le32_reads_back(item.ex_style);
}

proof fn lemma_item_len(item: DialogItem)
    ensures
        item_bytes(item).len() == 24 + wide_bytes(item.text@).len(),
{
    reveal(item_bytes);
}

proof fn lemma_header_fields()
    ensures
        header_bytes().len() == 80,
        u32_at(header_bytes(), 0) == DIALOG_STYLE,
        u16_at(header_bytes(), 8) == 4,
        u16_at(header_bytes(), 14) == DLG_WIDTH,
        u16_at(header_bytes(), 16) == DLG_HEIGHT,
{
    reveal(header_bytes);
    reveal_strlit("SpamBayes Help");
    reveal_strlit("MS Shell Dlg");
    lemma_ascii_len("SpamBayes Help"@);
    lemma_ascii_len("MS Shell Dlg"@);
    let header = header_bytes();
    lemma_le32_reads_back(DIALOG_STYLE);
    assert(header[0] == le32(DIALOG_STYLE)[0] && header[1] == le32(DIALOG_STYLE)[1] && header[2]
        == le32(DIALOG_STYLE)[2] && header[3] == le32(DIALOG_STYLE)[3]);
}

/// Appending a control whose text is `text` after aligned bytes.
proof fn lemma_append_item(before: Seq<u8>, item: DialogItem)
    requires
        before.len() % 4 == 0,
        item.text@.len() == 0,
    ensures
        aligned(before + item_bytes(item)).len() == before.len() + 28,
{
    lemma_ascii_len(item.text@);
    lemma_item_len(item);
}

/// The template is 200 bytes long. Its header has the documented style, number of controls and
/// size, and each of the four controls begins at a multiple of four bytes.
pub proof fn template_layout()
    ensures
        template_bytes().len() == 200,
        u32_at(template_bytes(), 0) == DIALOG_STYLE,
        u16_at(template_bytes(), 8) == 4,
        u16_at(template_bytes(), 14) == DLG_WIDTH,
        u16_at(template_bytes(), 16) == DLG_HEIGHT,
        item_stands_at(template_bytes(), 80, title_item()),
        item_stands_at(template_bytes(), 108, description_item()),
        item_stands_at(template_bytes(), 136, tips_item()),
        item_stands_at(template_bytes(), 164, close_item()),
{
    reveal_strlit("");
    reveal_strlit("Close");
    lemma_ascii_len("Close"@);
    lemma_header_fields();
    let header = header_bytes();
    let (title, description, tips, close) = (
        item_bytes(title_item()),
        item_bytes(description_item()),
        item_bytes(tips_item()),
        item_bytes(close_item()),
    );
    assert(aligned(header) =~= header);
    let before_description = aligned(header + title);
    let before_tips = aligned(before_description + description);
    let before_close = aligned(before_tips + tips);
    lemma_append_item(header, title_item());
    lemma_append_item(before_description, description_item());
    lemma_append_item(before_tips, tips_item());
    lemma_item_len(close_item());
    let whole = template_bytes();
    assert(whole == before_close + close);
    let after_tips = padding((before_tips + tips).len()) + close;
    let after_description = padding((before_description + description).len()) + tips + after_tips;
    let after_title = padding((header + title).len()) + description + after_description;
    assert(whole =~= before_tips + tips + after_tips);
    assert(whole =~= before_description + description + after_description);
    assert(whole =~= header + title + after_title);
    assert(whole =~= before_close + close + Seq::<u8>::empty());
    lemma_item_fields(header, title_item(), after_title);
    lemma_item_fields(before_description, description_item(), after_description);
    lemma_item_fields(before_tips, tips_item(), after_tips);
    lemma_item_fields(before_close, close_item(), Seq::<u8>::empty());
    assert(forall|i: int| 0 <= i < 80 ==> whole[i] == header[i]);
}

/// A number can be read back from its bytes.
pub proof fn number_bytes_read_back(v: u32)
    ensures
        le32(v).len() == 4,
        le32(v)[0] + 256 * le32(v)[1] + 65536 * le32(v)[2] + 16777216 * le32(v)[3] == v,
{
    let low = v % 65536;
    let high = v / 65536;
    assert(v == low + 65536 * high);
    assert(low == v % 256 + 256 * (v / 256 % 256));
    assert(high == v / 65536 % 256 + 256 * (v / 16777216));
}

/// The bytes of a text are two for each code unit, and two zeros at the end.
pub proof fn text_bytes_end_in_zero(s: Seq<char>)
    ensures
        wide_bytes(s).len() == 2 * (crate::wide::utf16(s).len() + 1),
        wide_bytes(s)[wide_bytes(s).len() - 1] == 0,
        wide_bytes(s)[wide_bytes(s).len() - 2] == 0,
{
    let units = wide_null(s);
    lemma_le_units_len(units);
    assert(units.last() == 0);
    assert(le_units(units) == le_units(units.drop_last()) + le16(0));
}

/// Each code unit of a text can be read back from its two bytes.
pub proof fn unit_bytes_read_back(units: Seq<u16>, i: int)
    requires
        0 <= i < units.len(),
    ensures
        le_units(units).len() == 2 * units.len(),
        le_units(units)[2 * i] + 256 * le_units(units)[2 * i + 1] == units[i],
    decreases units.len(),
{
    let shorter = units.drop_last();
    lemma_le_units_len(units);
    lemma_le_units_len(shorter);
    if i < shorter.len() {
        unit_bytes_read_back(shorter, i);
        assert(le_units(units)[2 * i] == le_units(shorter)[2 * i]);
        assert(le_units(units)[2 * i + 1] == le_units(shorter)[2 * i + 1]);
    } else {
        assert(le_units(units)[2 * i] == le16(units[i])[0]);
        assert(le_units(units)[2 * i + 1] == le16(units[i])[1]);
    }
}

/// What is appended comes after what was there, and a buffer is filled up with fewer than four
/// zeros.
pub proof fn buffers_only_grow(
    number: &mut Vec<u8>,
    value: u16,
    text: &mut Vec<u8>,
    s: &str,
    filled: &mut Vec<u8>,
)
    requires
        call_ensures(push_u16, (number, value), ()),
        call_ensures(push_wide_string, (text, s), ()),
        call_ensures(align_dword, (filled,), ()),
    ensures
        final(number)@.len() == old(number)@.len() + 2,
        final(number)@.take(old(number)@.len() as int) == old(number)@,
        final(number)@[old(number)@.len() as int] + 256 * final(number)@[
            (old(number)@.len() + 1) as int]
            == value,
        final(text)@.take(old(text)@.len() as int) == old(text)@,
        final(text)@.len() == old(text)@.len() + 2 * (crate::wide::utf16(s@).len() + 1),
        final(filled)@.len() % 4 == 0,
        final(filled)@.len() < old(filled)@.len() + 4,
        final(filled)@.take(old(filled)@.len() as int) == old(filled)@,
        forall|i: int|
            old(filled)@.len() <= i < final(filled)@.len() ==> final(filled)@[i] == 0,
{
    text_bytes_end_in_zero(s@);
    assert(final(number)@.take(old(number)@.len() as int) =~= old(number)@);
    assert(final(text)@.take(old(text)@.len() as int) =~= old(text)@);
    assert(final(filled)@.take(old(filled)@.len() as int) =~= old(filled)@);
}

/// The template describes a dialog of 350 by 300 with four controls: the title at the top, the
/// description below it, the tips below that, and the button in the lower right corner, each with
/// its own number and class.
pub proof fn the_template_describes_the_dialog(template: Vec<u8>)
    requires
        call_ensures(create_help_dialog_template, (), template),
    ensures
        template@.len() == 200,
        u32_at(template@, 0) == 0x80C8_00C0,
        u16_at(template@, 8) == 4,
        u16_at(template@, 14) == 350,
        u16_at(template@, 16) == 300,
        u32_at(template@, 80) == 0x5000_0000,
        u16_at(template@, 88) == 10 && u16_at(template@, 90) == 10,
        u16_at(template@, 92) == 320 && u16_at(template@, 94) == 14,
        u16_at(template@, 96) == 4001,
        u16_at(template@, 98) == 0xFFFF && u16_at(template@, 100) == 0x82,
        u32_at(template@, 108) == 0x50A1_0844,
        u16_at(template@, 116) == 10 && u16_at(template@, 118) == 30,
        u16_at(template@, 120) == 320 && u16_at(template@, 122) == 200,
        u16_at(template@, 124) == 4002,
        u16_at(template@, 126) == 0xFFFF && u16_at(template@, 128) == 0x81,
        u32_at(template@, 136) == 0x5000_0000,
        u16_at(template@, 144) == 10 && u16_at(template@, 146) == 235,
        u16_at(template@, 148) == 320 && u16_at(template@, 150) == 40,
        u16_at(template@, 152) == 4003,
        u16_at(template@, 154) == 0xFFFF && u16_at(template@, 156) == 0x82,
        u32_at(template@, 164) == 0x5001_0000,
        u16_at(template@, 172) == 280 && u16_at(template@, 174) == 280,
        u16_at(template@, 176) == 60 && u16_at(template@, 178) == 14,
        u16_at(template@, 180) == 4004,
        u16_at(template@, 182) == 0xFFFF && u16_at(template@, 184) == 0x80,
{
    template_layout();
    assert(DIALOG_STYLE == 0x80C8_00C0u32) by (bit_vector);
    assert(LABEL_STYLE == 0x5000_0000u32) by (bit_vector);
    assert(DESCRIPTION_STYLE == 0x50A1_0844u32) by (bit_vector);
    assert(BUTTON_STYLE == 0x5001_0000u32) by (bit_vector);
}

/// A control that is appended where four bytes begin can be read field by field, and a number of 32
/// bits as the number that it was.
pub proof fn appended_controls_can_be_read(
    items: &mut Vec<u8>,
    item: DialogItem,
    numbers: &mut Vec<u8>,
    number: u32,
)
    requires
        old(items)@.len() % 4 == 0,
        call_ensures(push_dlg_item, (items, item), ()),
        call_ensures(push_u32, (numbers, number), ()),
    ensures
        final(items)@.take(old(items)@.len() as int) == old(items)@,
        item_stands_at(final(items)@, old(items)@.len() as int, item),
        final(items)@.len() == old(items)@.len() + 24 + 2 * (crate::wide::utf16(item.text@).len()
            + 1),
        final(numbers)@.take(old(numbers)@.len() as int) == old(numbers)@,
        final(numbers)@.len() == old(numbers)@.len() + 4,
        u32_at(final(numbers)@, old(numbers)@.len() as int) == number,
{
    let before = old(items)@;
    lemma_item_fields(before, item, Seq::empty());
    assert(before + item_bytes(item) + Seq::<u8>::empty() =~= final(items)@);
    assert(final(items)@.take(before.len() as int) =~= before);
    lemma_item_len(item);
    text_bytes_end_in_zero(item.text@);
    lemma_le32_reads_back(number);
    let at = old(numbers)@.len() as int;
    assert(final(numbers)@.take(at) =~= old(numbers)@);
    assert(final(numbers)@[at] == le32(number)[0] && final(numbers)@[at + 1] == le32(number)[1]
        && final(numbers)@[at + 2] == le32(number)[2] && final(numbers)@[at + 3] == le32(
        number,
    )[3]);
}

proof fn lemma_template_parts()
    ensures
        template_bytes().len() == 200,
        template_bytes().take(80) == header_bytes(),
        template_bytes().skip(164) == item_bytes(close_item()),
{
    template_layout();
    reveal_strlit("");
    reveal_strlit("Close");
    lemma_ascii_len("Close"@);
    lemma_header_fields();
    lemma_item_len(close_item());
    let header = header_bytes();
    assert(aligned(header) =~= header);
    let with_title = aligned(header) + item_bytes(title_item());
    let with_description = aligned(with_title) + item_bytes(description_item());
    let with_tips = aligned(with_description) + item_bytes(tips_item());
    let close = item_bytes(close_item());
    let whole = template_bytes();
    assert(whole == aligned(with_tips) + close);
    assert(close.len() == 36);
    assert(whole.skip(164) =~= close);
    assert(with_title.take(80) =~= header);
    assert(with_description.take(80) =~= header);
    assert(with_tips.take(80) =~= header);
    assert(whole.take(80) =~= header);
}

/// The dialog is called `SpamBayes Help` and uses the shell's font in size 8; its button is
/// labelled `Close`. Neither the dialog nor a control has an extended style, and the dialog has no
/// menu, no class of its own and stands at the origin.
pub proof fn the_template_holds_its_texts(template: Vec<u8>)
    requires
        call_ensures(create_help_dialog_template, (), template),
    ensures
        template@.len() == 200,
        template@.subrange(22, 52) == wide_bytes("SpamBayes Help"@),
        u16_at(template@, 52) == 8,
        template@.subrange(54, 80) == wide_bytes("MS Shell Dlg"@),
        template@.subrange(186, 198) == wide_bytes("Close"@),
        u16_at(template@, 198) == 0,
        u32_at(template@, 4) == 0,
        u16_at(template@, 10) == 0 && u16_at(template@, 12) == 0,
        u16_at(template@, 18) == 0 && u16_at(template@, 20) == 0,
        u32_at(template@, 84) == 0 && u32_at(template@, 112) == 0,
        u32_at(template@, 140) == 0 && u32_at(template@, 168) == 0,
{
    lemma_template_parts();
    template_layout();
    lemma_header_texts();
    lemma_close_text();
    let whole = template@;
    let header = header_bytes();
    let close = item_bytes(close_item());
    assert forall|i: int| 0 <= i < 80 implies #[trigger] whole[i] == header[i] by {
        assert(whole.take(80)[i] == header[i]);
    }
    assert(whole.subrange(22, 52) =~= header.subrange(22, 52));
    assert(whole.subrange(54, 80) =~= header.subrange(54, 80));
    assert forall|i: int| 164 <= i < 200 implies #[trigger] whole[i] == close[i - 164] by {
        assert(whole.skip(164)[i - 164] == close[i - 164]);
    }
    assert(whole.subrange(186, 198) =~= close.subrange(22, 34));
}

proof fn lemma_header_texts()
    ensures
        header_bytes().len() == 80,
        header_bytes().subrange(22, 52) == wide_bytes("SpamBayes Help"@),
        u16_at(header_bytes(), 52) == 8,
        header_bytes().subrange(54, 80) == wide_bytes("MS Shell Dlg"@),
        u32_at(header_bytes(), 4) == 0,
        u16_at(header_bytes(), 10) == 0 && u16_at(header_bytes(), 12) == 0,
        u16_at(header_bytes(), 18) == 0 && u16_at(header_bytes(), 20) == 0,
{
    reveal(header_bytes);
    reveal_strlit("SpamBayes Help");
    reveal_strlit("MS Shell Dlg");
    lemma_ascii_len("SpamBayes Help"@);
    lemma_ascii_len("MS Shell Dlg"@);
    let title = wide_bytes("SpamBayes Help"@);
    let font = wide_bytes("MS Shell Dlg"@);
    let numbers = le32(DIALOG_STYLE) + le32(0) + le16(4) + le16(0) + le16(0) + le16(DLG_WIDTH)
        + le16(DLG_HEIGHT) + le16(0) + le16(0);
    assert(numbers.len() == 22);
    assert(numbers[4] == 0 && numbers[5] == 0 && numbers[6] == 0 && numbers[7] == 0);
    assert(numbers[10] == 0 && numbers[11] == 0 && numbers[12] == 0 && numbers[13] == 0);
    assert(numbers[18] == 0 && numbers[19] == 0 && numbers[20] == 0 && numbers[21] == 0);
    let header = header_bytes();
    assert(header == numbers + title + le16(8) + font);
    assert(header.subrange(22, 52) =~= title);
    assert(header.subrange(54, 80) =~= font);
}

proof fn lemma_close_text()
    ensures
        item_bytes(close_item()).len() == 36,
        item_bytes(close_item()).subrange(22, 34) == wide_bytes("Close"@),
        item_bytes(close_item())[34] == 0,
        item_bytes(close_item())[35] == 0,
{
    reveal(item_bytes);
    reveal_strlit("Close");
    lemma_ascii_len("Close"@);
    let item = close_item();
    let numbers = le32(item.style) + le32(item.ex_style) + le16(item.x) + le16(item.y) + le16(
        item.cx,
    ) + le16(item.cy) + le16(item.id) + le16(0xFFFF) + le16(item.class_atom);
    let text = wide_bytes("Close"@);
    assert(numbers.len() == 22);
    assert(item_bytes(item) == numbers + text + le16(0));
    assert(item_bytes(item).subrange(22, 34) =~= text);
}

} // verus!
