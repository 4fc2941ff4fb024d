//! The decisions of the capture loops: which frames are sent, what
//! receivers see while the screen is blanked, where the mouse cursor falls
//! on the shared monitor, and the text cursor drawn over a frame.

use vstd::prelude::*;
use crate::socket::codec::SerializableImage;

verus! {

/// Width and height of the blank frame used when the screen cannot be
/// captured.
pub const FALLBACK_WIDTH: u32 = 1440;
pub const FALLBACK_HEIGHT: u32 = 900;

/// Height in pixels of the text cursor drawn over frames.
pub const TEXT_CURSOR_HEIGHT: i32 = 20;

/// Horizontal shift of the text cursor, so that it lands where the system
/// draws it.
pub const TEXT_CURSOR_SHIFT: i32 = 10;

/// Bytes of a `width` x `height` RGBA frame.
pub open spec fn frame_len(width: u32, height: u32) -> int {
    width * height * 4
}

fn zeros(n: usize) -> (v: Vec<u8>)
    ensures
        v@ == Seq::new(n as nat, |i: int| 0u8),
{
    let mut v: Vec<u8> = Vec::with_capacity(n);
    let mut i: usize = 0;
    while i < n
        invariant
            i <= n,
            v@ == Seq::new(i as nat, |k: int| 0u8),
        decreases n - i,
    {
        v.push(0u8);
        assert(v@ =~= Seq::new((i + 1) as nat, |k: int| 0u8));
        i = i + 1;
    }
    v
}

/// A black `width` x `height` frame (every byte zero, alpha included).
pub fn black_frame(width: u32, height: u32) -> (image: SerializableImage)
    requires
        frame_len(width, height) <= u32::MAX,
    ensures
        image@ == (width, height, Seq::new(frame_len(width, height) as nat, |i: int| 0u8)),
{
    let n = (width * height * 4) as usize;
    SerializableImage::new(width, height, zeros(n))
}

/// The captured frame when there is one, and a black frame of the fallback
/// size when capture failed.
pub fn screenshot_or_blank(captured: Option<SerializableImage>) -> (image: SerializableImage)
    ensures
        match captured {
            Some(c) => image@ == c@,
            None => image@ == (FALLBACK_WIDTH, FALLBACK_HEIGHT,
                Seq::new(frame_len(FALLBACK_WIDTH, FALLBACK_HEIGHT) as nat, |i: int| 0u8)),
        },
{
    match captured {
        Some(c) => c,
        None => black_frame(FALLBACK_WIDTH, FALLBACK_HEIGHT),
    }
}

/// A captured frame, once checked: `None` when its buffer does not hold
/// exactly `width` x `height` RGBA pixels (the frame is then skipped).
pub fn checked_frame(width: u32, height: u32, raw_data: Vec<u8>) -> (frame: Option<SerializableImage>)
    requires
        frame_len(width, height) <= u32::MAX,
    ensures
        raw_data@.len() == frame_len(width, height) ==> (frame matches Some(f) && f@ == (width, height, raw_data@)),
        raw_data@.len() != frame_len(width, height) ==> frame is None,
{
    let expected = (width * height * 4) as usize;
    if raw_data.len() != expected {
        None
    } else {
        Some(SerializableImage::new(width, height, raw_data))
    }
}

/// What receivers get for a frame: the frame itself, or a black frame of
/// the same size while the screen is blanked.
pub fn frame_for_receivers(frame: &SerializableImage, blanking: bool) -> (sent: SerializableImage)
    requires
        frame_len(frame@.0, frame@.1) <= u32::MAX,
    ensures
        blanking ==> sent@ == (frame@.0, frame@.1, Seq::new(frame_len(frame@.0, frame@.1) as nat, |i: int| 0u8)),
        !blanking ==> sent@ == frame@,
{
    if blanking {
        black_frame(frame.width(), frame.height())
    } else {
        let data = frame.data();
        let mut copy: Vec<u8> = Vec::with_capacity(data.len());
        let mut i: usize = 0;
        while i < data.len()
            invariant
                i <= data@.len(),
                copy@ == data@.subrange(0, i as int),
            decreases data@.len() - i,
        {
            copy.push(data[i]);
            assert(copy@ =~= data@.subrange(0, i + 1));
            i = i + 1;
        }
        assert(copy@ =~= data@);
        SerializableImage::new(frame.width(), frame.height(), copy)
    }
}

/// What a capture loop does with a frame it has just captured.
pub enum FrameAction {
    /// The buffer has the wrong size: skip the frame and capture again.
    Skip,
    /// The buffer has the wrong size while an area is shared: stop sharing.
    Stop,
    /// Show `preview` locally, and send `to_receivers` when there is a
    /// socket to send it through.
    Deliver { preview: SerializableImage, to_receivers: Option<SerializableImage> },
}

/// Decides what becomes of a captured frame of `width` x `height` pixels
/// with bytes `raw_data` (cursor already drawn): a buffer of the wrong size
/// skips the frame when the whole monitor is shared and ends the loop when
/// an area is (`partial`); otherwise the frame is shown, and sent as it is,
/// or black while `blanking`, when the caster `has_socket`.
pub fn next_frame_action(partial: bool, width: u32, height: u32, raw_data: Vec<u8>, has_socket: bool, blanking: bool) -> (action: FrameAction)
    requires
        frame_len(width, height) <= u32::MAX,
    ensures
        raw_data@.len() != frame_len(width, height) ==> if partial { action is Stop } else { action is Skip },
        raw_data@.len() == frame_len(width, height) ==> match action {
            FrameAction::Deliver { preview, to_receivers } => {
                &&& preview@ == (width, height, raw_data@)
                &&& match to_receivers {
                    Some(sent) => has_socket && if blanking {
                        sent@ == (width, height, Seq::new(frame_len(width, height) as nat, |i: int| 0u8))
                    } else {
                        sent@ == (width, height, raw_data@)
                    },
                    None => !has_socket,
                }
            },
            _ => false,
        },
{
    match checked_frame(width, height, raw_data) {
        None => if partial { FrameAction::Stop } else { FrameAction::Skip },
        Some(frame) => {
            let to_receivers = if has_socket { Some(frame_for_receivers(&frame, blanking)) } else { None };
            FrameAction::Deliver { preview: frame, to_receivers }
        },
    }
}

/// Position of the cursor relative to a monitor at (`monitor_x`,
/// `monitor_y`) of `monitor_width` x `monitor_height` pixels, moved back by
/// `offset` when only an area starting there is shared; `None` when the
/// cursor is not on it.
pub open spec fn cursor_on_monitor(
    global_x: int,
    global_y: int,
    monitor_x: int,
    monitor_y: int,
    monitor_width: int,
    monitor_height: int,
    offset: (int, int),
) -> Option<(int, int)> {
    let rx = global_x - monitor_x - offset.0;
    let ry = global_y - monitor_y - offset.1;
    if 0 <= rx < monitor_width && 0 <= ry < monitor_height {
        Some((rx, ry))
    } else {
        None
    }
}

/// Converts the cursor's desktop position to a position on the shared
/// monitor.
pub fn convert_cursor_coordinates(
    global_x: i32,
    global_y: i32,
    monitor_x: i32,
    monitor_y: i32,
    monitor_width: u32,
    monitor_height: u32,
) -> (r: Option<(i32, i32)>)
    requires
        i32::MIN <= global_x - monitor_x <= i32::MAX,
        i32::MIN <= global_y - monitor_y <= i32::MAX,
        monitor_width <= i32::MAX,
        monitor_height <= i32::MAX,
    ensures
        match cursor_on_monitor(global_x as int, global_y as int, monitor_x as int, monitor_y as int,
            monitor_width as int, monitor_height as int, (0, 0)) {
            Some((x, y)) => r == Some((x as i32, y as i32)),
            None => r is None,
        },
{
    convert_cursor_coordinates_partial(global_x, global_y, monitor_x, monitor_y, monitor_width, monitor_height, None)
}

/// Converts the cursor's desktop position to a position on the shared
/// monitor, or on the shared area when its top-left corner `offset` is
/// given.
pub fn convert_cursor_coordinates_partial(
    global_x: i32,
    global_y: i32,
    monitor_x: i32,
    monitor_y: i32,
    monitor_width: u32,
    monitor_height: u32,
    offset: Option<(i32, i32)>,
) -> (r: Option<(i32, i32)>)
    requires
        i32::MIN <= global_x - monitor_x <= i32::MAX,
        i32::MIN <= global_y - monitor_y <= i32::MAX,
        offset matches Some((ox, oy)) ==> i32::MIN <= global_x - monitor_x - ox <= i32::MAX
            && i32::MIN <= global_y - monitor_y - oy <= i32::MAX,
        monitor_width <= i32::MAX,
        monitor_height <= i32::MAX,
    ensures
        match cursor_on_monitor(global_x as int, global_y as int, monitor_x as int, monitor_y as int,
            monitor_width as int, monitor_height as int, match offset {
                Some((ox, oy)) => (ox as int, oy as int),
                None => (0, 0),
            }) {
            Some((x, y)) => r == Some((x as i32, y as i32)),
            None => r is None,
        },
{
    let width = monitor_width as i32;
    let height = monitor_height as i32;
    let mut relative_x = global_x - monitor_x;
    let mut relative_y = global_y - monitor_y;
    if let Some((offset_x, offset_y)) = offset {
        relative_x = relative_x - offset_x;
        relative_y = relative_y - offset_y;
    }
    if relative_x >= 0 && relative_x < width && relative_y >= 0 && relative_y < height {
        Some((relative_x, relative_y))
    } else {
        None
    }
}

/// First byte of the text cursor's pixel in row `row` of the cursor.
pub open spec fn text_cursor_base(frame_width: u32, cursor_x: i32, cursor_y: i32, row: int) -> int {
    ((cursor_y + row) * frame_width + cursor_x + TEXT_CURSOR_SHIFT) * 4
}

/// Row `row` of the text cursor paints byte `i`: the row is on the frame
/// and its whole pixel lies inside the buffer.
pub open spec fn text_cursor_row_paints(
    len: int,
    frame_width: u32,
    frame_height: u32,
    cursor_x: i32,
    cursor_y: i32,
    row: int,
    i: int,
) -> bool {
    let base = text_cursor_base(frame_width, cursor_x, cursor_y, row);
    &&& 0 <= cursor_y + row < frame_height
    &&& base + 3 < len
    &&& base <= i < base + 4
}

/// Some row below `rows` of the text cursor paints byte `i`.
pub open spec fn text_cursor_paints(
    len: int,
    frame_width: u32,
    frame_height: u32,
    cursor_x: i32,
    cursor_y: i32,
    rows: int,
    i: int,
) -> bool
    decreases rows,
{
    if rows <= 0 {
        false
    } else {
        text_cursor_paints(len, frame_width, frame_height, cursor_x, cursor_y, rows - 1, i)
            || text_cursor_row_paints(len, frame_width, frame_height, cursor_x, cursor_y, rows - 1, i)
    }
}

/// Draws the text ("I"-shaped) cursor over an RGBA frame: a white column,
/// one pixel wide and 20 pixels tall, starting at the cursor and shifted
/// right, clipped to the frame's rows and to the buffer.
pub fn overlay_text_cursor(raw_data: &mut Vec<u8>, frame_width: u32, frame_height: u32, cursor_x: i32, cursor_y: i32)
    requires
        0 <= cursor_x + TEXT_CURSOR_SHIFT <= i32::MAX,
        cursor_y + TEXT_CURSOR_HEIGHT <= i32::MAX,
    ensures
        final(raw_data)@.len() == old(raw_data)@.len(),
        forall|i: int| 0 <= i < old(raw_data)@.len() ==> #[trigger] final(raw_data)@[i] == if text_cursor_paints(
            old(raw_data)@.len() as int, frame_width, frame_height, cursor_x, cursor_y, TEXT_CURSOR_HEIGHT as int, i) {
            255u8
        } else {
            old(raw_data)@[i]
        },
{
    let ghost initial = raw_data@;
    let len = raw_data.len();
    let adjusted_cursor_x = cursor_x + TEXT_CURSOR_SHIFT;
    let mut y: i32 = 0;
    while y < TEXT_CURSOR_HEIGHT
        invariant
            0 <= y <= TEXT_CURSOR_HEIGHT,
            adjusted_cursor_x == cursor_x + TEXT_CURSOR_SHIFT,
            0 <= adjusted_cursor_x,
            cursor_y + TEXT_CURSOR_HEIGHT <= i32::MAX,
            len == initial.len(),
            raw_data@.len() == len,
            forall|i: int| 0 <= i < len ==> #[trigger] raw_data@[i] == if text_cursor_paints(
                len as int, frame_width, frame_height, cursor_x, cursor_y, y as int, i) {
                255u8
            } else {
                initial[i]
            },
        decreases TEXT_CURSOR_HEIGHT - y,
    {
        let frame_y = cursor_y + y;
        let ghost before = raw_data@;
        if frame_y >= 0 && (frame_y as u32) < frame_height {
            let fy = frame_y as u128;
            let fw = frame_width as u128;
            assert(fy * fw <= 0xffff_ffffu128 * 0xffff_ffffu128) by (nonlinear_arith)
                requires fy <= 0xffff_ffffu128, fw <= 0xffff_ffffu128;
            let index: u128 = (fy * fw + (adjusted_cursor_x as u128)) * 4;
            assert(index == text_cursor_base(frame_width, cursor_x, cursor_y, y as int)) by (nonlinear_arith)
                requires
                    index == (fy * fw + (adjusted_cursor_x as int)) * 4,
                    fy == frame_y,
                    fw == frame_width,
                    frame_y == cursor_y + y,
                    adjusted_cursor_x == cursor_x + TEXT_CURSOR_SHIFT,
            ;
            if index + 3 < len as u128 {
                let k = index as usize;
                raw_data.set(k, 255u8);
                raw_data.set(k + 1, 255u8);
                raw_data.set(k + 2, 255u8);
                raw_data.set(k + 3, 255u8);
            }
        }
        assert forall|i: int| 0 <= i < len implies #[trigger] raw_data@[i] == if text_cursor_paints(
            len as int, frame_width, frame_height, cursor_x, cursor_y, y + 1, i) {
            255u8
        } else {
            initial[i]
        } by {
            assert(before[i] == if text_cursor_paints(len as int, frame_width, frame_height, cursor_x, cursor_y, y as int, i) {
                255u8
            } else {
                initial[i]
            });
        }
        y = y + 1;
    }
}


/// A cursor is placed on the shared monitor (or area) exactly when its
/// desktop position, less the monitor's origin and the area's offset, lies
/// inside the monitor's width and height; it is then placed at that
/// difference.
pub proof fn lemma_cursor_placement(
    global_x: int,
    global_y: int,
    monitor_x: int,
    monitor_y: int,
    monitor_width: int,
    monitor_height: int,
    offset: (int, int),
)
    ensures
        cursor_on_monitor(global_x, global_y, monitor_x, monitor_y, monitor_width, monitor_height, offset)
            matches Some((x, y)) ==> 0 <= x < monitor_width && 0 <= y < monitor_height
            && x == global_x - monitor_x - offset.0 && y == global_y - monitor_y - offset.1,
        (0 <= global_x - monitor_x - offset.0 < monitor_width && 0 <= global_y - monitor_y - offset.1 < monitor_height)
            ==> cursor_on_monitor(global_x, global_y, monitor_x, monitor_y, monitor_width, monitor_height, offset) is Some,
{
}


proof fn lemma_paints_some_row(len: int, frame_width: u32, frame_height: u32, cursor_x: i32, cursor_y: i32, rows: int, i: int)
    ensures
        text_cursor_paints(len, frame_width, frame_height, cursor_x, cursor_y, rows, i) <==> exists|r: int|
            0 <= r < rows && #[trigger] text_cursor_row_paints(len, frame_width, frame_height, cursor_x, cursor_y, r, i),
    decreases rows,
{
    if rows > 0 {
        lemma_paints_some_row(len, frame_width, frame_height, cursor_x, cursor_y, rows - 1, i);
        if text_cursor_row_paints(len, frame_width, frame_height, cursor_x, cursor_y, rows - 1, i) {
            assert(0 <= rows - 1 < rows);
        }
    }
}

/// The text cursor paints white exactly the bytes of the pixel
/// `TEXT_CURSOR_SHIFT` columns right of the cursor, in each of the
/// `TEXT_CURSOR_HEIGHT` rows from the cursor's row down that lie on the
/// frame and whose pixel lies wholly inside the buffer.
pub proof fn lemma_text_cursor_pixels(len: int, frame_width: u32, frame_height: u32, cursor_x: i32, cursor_y: i32, i: int)
    ensures
        text_cursor_paints(len, frame_width, frame_height, cursor_x, cursor_y, TEXT_CURSOR_HEIGHT as int, i)
            <==> exists|r: int| 0 <= r < 20 && 0 <= cursor_y + r < frame_height && #[trigger] (((cursor_y + r) * frame_width + cursor_x + 10) * 4) + 3 < len
                && ((cursor_y + r) * frame_width + cursor_x + 10) * 4 <= i < ((cursor_y + r) * frame_width + cursor_x + 10) * 4 + 4,
{
    lemma_paints_some_row(len, frame_width, frame_height, cursor_x, cursor_y, TEXT_CURSOR_HEIGHT as int, i);
    if text_cursor_paints(len, frame_width, frame_height, cursor_x, cursor_y, TEXT_CURSOR_HEIGHT as int, i) {
        let r = choose|r: int| 0 <= r < TEXT_CURSOR_HEIGHT && #[trigger] text_cursor_row_paints(len, frame_width, frame_height, cursor_x, cursor_y, r, i);
        assert(0 <= r < 20 && 0 <= cursor_y + r < frame_height && (((cursor_y + r) * frame_width + cursor_x + 10) * 4) + 3 < len);
    }
    if exists|r: int| 0 <= r < 20 && 0 <= cursor_y + r < frame_height && #[trigger] (((cursor_y + r) * frame_width + cursor_x + 10) * 4) + 3 < len
        && ((cursor_y + r) * frame_width + cursor_x + 10) * 4 <= i < ((cursor_y + r) * frame_width + cursor_x + 10) * 4 + 4 {
        let r = choose|r: int| 0 <= r < 20 && 0 <= cursor_y + r < frame_height && #[trigger] (((cursor_y + r) * frame_width + cursor_x + 10) * 4) + 3 < len
            && ((cursor_y + r) * frame_width + cursor_x + 10) * 4 <= i < ((cursor_y + r) * frame_width + cursor_x + 10) * 4 + 4;
        assert(text_cursor_row_paints(len, frame_width, frame_height, cursor_x, cursor_y, r, i));
    }
}

} // verus!
