//! The shared-texture capture between the render hook (the producer) and the OBS source
//! (the reader): the control block's header and flags, the names of the shared objects,
//! and the reader's decisions on each tick and render.
use vstd::prelude::*;
use crate::text::{chars_of, decimal, decimal_exec, extend_chars, string_of};

verus! {

broadcast use vstd::string::group_string_axioms;

/// The control block's magic number, `"GCRP"` read little-endian.
pub const GLORP_CAPTURE_MAGIC: u32 = 0x5052_4347;
/// The control block's layout version.
pub const GLORP_CAPTURE_VERSION: u32 = 1;
/// The flag bit that the reader sets while it reads.
pub const READER_ACTIVE: u32 = 0x1;
/// The size of the mapped control block.
pub const INFO_SIZE: usize = 64;
/// How long the reader waits between searches for a producer, in milliseconds.
pub const DISCOVER_RETRY_MS: u64 = 500;
/// How long the reader waits on a producer that sends no frame before it checks that the
/// producer still runs, in milliseconds.
pub const STALL_RETRY_MS: u64 = 1000;

/// The header fields of the control block.
#[derive(Clone, Copy, Debug, PartialEq, Eq, Structural)]
pub struct CaptureInfo {
    pub magic: u32,
    pub version: u32,
    pub width: u32,
    pub height: u32,
    pub format: u32,
    pub flags: u32,
    pub frame_counter: u64,
}

/// A fresh control block as the producer stamps it: zeroed, with its magic and version.
pub fn fresh_capture_info() -> (r: CaptureInfo)
    ensures
        r == (CaptureInfo {
            magic: GLORP_CAPTURE_MAGIC,
            version: GLORP_CAPTURE_VERSION,
            width: 0,
            height: 0,
            format: 0,
            flags: 0,
            frame_counter: 0,
        }),
{
    CaptureInfo {
        magic: GLORP_CAPTURE_MAGIC,
        version: GLORP_CAPTURE_VERSION,
        width: 0,
        height: 0,
        format: 0,
        flags: 0,
        frame_counter: 0,
    }
}

/// A control block is one the reader can use: its magic and version are the expected ones.
pub fn info_is_valid(magic: u32, version: u32) -> (r: bool)
    ensures
        r == (magic == GLORP_CAPTURE_MAGIC && version == GLORP_CAPTURE_VERSION),
{
    magic == GLORP_CAPTURE_MAGIC && version == GLORP_CAPTURE_VERSION
}

/// The flags with the reader bit set or cleared.
pub open spec fn with_reader_flag(flags: u32, on: bool) -> u32 {
    if on {
        flags | READER_ACTIVE
    } else {
        flags & !READER_ACTIVE
    }
}

/// The flags with the reader bit set or cleared, every other bit kept.
pub fn set_reader_active(flags: u32, on: bool) -> (r: u32)
    ensures
        r == with_reader_flag(flags, on),
        r & READER_ACTIVE == (if on { READER_ACTIVE } else { 0 }),
        r & !READER_ACTIVE == flags & !READER_ACTIVE,
{
    let r = if on {
        flags | READER_ACTIVE
    } else {
        flags & !READER_ACTIVE
    };
    assert(on ==> (flags | 1u32) & 1u32 == 1u32 && (flags | 1u32) & !1u32 == flags & !1u32) by (bit_vector);
    assert(!on ==> (flags & !1u32) & 1u32 == 0u32 && (flags & !1u32) & !1u32 == flags & !1u32) by (bit_vector);
    r
}

/// A reader is attached: the producer copies frames only then.
pub fn reader_active(flags: u32) -> (r: bool)
    ensures
        r == (flags & READER_ACTIVE != 0),
{
    flags & READER_ACTIVE != 0
}

/// The frame counter after a published frame; it wraps.
pub fn next_frame_counter(counter: u64) -> (r: u64)
    ensures
        r == (if counter == u64::MAX { 0 } else { (counter + 1) as u64 }),
{
    counter.wrapping_add(1)
}

/// The producer's shared texture must be (re)created: there is none, or its size or format
/// differs from the back buffer's.
pub fn texture_outdated(has_texture: bool, cached: (u32, u32, u32), width: u32, height: u32, format: u32) -> (r: bool)
    ensures
        r == (!has_texture || cached.0 != width || cached.1 != height || cached.2 != format),
{
    !has_texture || cached.0 != width || cached.1 != height || cached.2 != format
}

/// The named objects of a capture.
#[derive(Clone, Copy, Debug, PartialEq, Eq, Structural)]
pub enum CaptureObject {
    /// The mapped control block.
    Info,
    /// The event signalled on each frame.
    Frame,
    /// The shared texture.
    Texture,
}

/// The prefix of a capture object's name.
pub open spec fn object_prefix(kind: CaptureObject) -> Seq<char> {
    match kind {
        CaptureObject::Info => "GlorpCaptureInfo_"@,
        CaptureObject::Frame => "GlorpCaptureFrame_"@,
        CaptureObject::Texture => "GlorpCaptureTex_"@,
    }
}

/// The name of a capture object of the producer process `pid`.
pub fn capture_object_name(kind: CaptureObject, pid: u32) -> (r: String)
    ensures
        r@ == object_prefix(kind) + decimal(pid as nat),
{
    let mut v = match kind {
        CaptureObject::Info => chars_of("GlorpCaptureInfo_"),
        CaptureObject::Frame => chars_of("GlorpCaptureFrame_"),
        CaptureObject::Texture => chars_of("GlorpCaptureTex_"),
    };
    let d = decimal_exec(pid as u64);
    extend_chars(&mut v, d.as_slice());
    string_of(v.as_slice())
}

/// The libobs API version the OBS source declares (32.0.0).
pub fn obs_module_ver() -> (r: u32)
    ensures
        r == 0x2000_0000,
{
    assert(32u32 << 24u32 == 0x2000_0000u32) by (bit_vector);
    32u32 << 24u32
}

/// The graphics backend check, cached: `cached` is 1 (supported), 0 (not supported) or
/// unknown; when unknown the device type decides (only Direct3D 11, type 2, is supported).
/// The result is the answer and the new cache value.
pub fn backend_check(cached: i8, device_type: i32) -> (r: (bool, i8))
    ensures
        cached == 1 ==> r == (true, 1i8),
        cached == 0 ==> r == (false, 0i8),
        cached != 0 && cached != 1 ==> r == (if device_type == 2 { (true, 1i8) } else { (false, 0i8) }),
{
    if cached == 1 {
        (true, 1)
    } else if cached == 0 {
        (false, 0)
    } else if device_type == 2 {
        (true, 1)
    } else {
        (false, 0)
    }
}

/// What the reader does on a video tick.
#[derive(Clone, Copy, Debug, PartialEq, Eq, Structural)]
pub enum TickAction {
    /// Nothing now.
    Wait,
    /// Search for a producer and restart the retry clock.
    Discover,
    /// The producer sent nothing for a while: tear the session down if its process is gone.
    CheckProducer,
    /// A new frame arrived: remember its counter and restart the clock.
    NewFrame { counter: u64 },
}

/// What the reader does on a video tick, given whether it has a session, the time since
/// its last attempt or frame, and (with a session) the frame counter it last saw and the
/// current one.
pub fn tick_action(has_session: bool, since_ms: u64, last_counter: u64, frame_counter: u64) -> (r: TickAction)
    ensures
        !has_session ==> r == (if since_ms >= DISCOVER_RETRY_MS { TickAction::Discover } else { TickAction::Wait }),
        has_session && frame_counter == last_counter ==> r == (if since_ms >= STALL_RETRY_MS {
            TickAction::CheckProducer
        } else {
            TickAction::Wait
        }),
        has_session && frame_counter != last_counter ==> r == (TickAction::NewFrame { counter: frame_counter }),
{
    if !has_session {
        if since_ms >= DISCOVER_RETRY_MS {
            TickAction::Discover
        } else {
            TickAction::Wait
        }
    } else if frame_counter == last_counter {
        if since_ms >= STALL_RETRY_MS {
            TickAction::CheckProducer
        } else {
            TickAction::Wait
        }
    } else {
        TickAction::NewFrame { counter: frame_counter }
    }
}

/// The reader (re)opens the shared texture on render: the producer published a size, and
/// the reader has no texture or one of another size.
pub fn needs_texture(width: u32, height: u32, has_texture: bool, cur_width: u32, cur_height: u32) -> (r: bool)
    ensures
        r == (width != 0 && height != 0 && (!has_texture || cur_width != width || cur_height != height)),
{
    width != 0 && height != 0 && (!has_texture || cur_width != width || cur_height != height)
}

/// Opening the texture is nothing to do: one of that size is already open.
pub fn texture_current(has_texture: bool, cur_width: u32, cur_height: u32, width: u32, height: u32) -> (r: bool)
    ensures
        r == (has_texture && cur_width == width && cur_height == height),
{
    has_texture && cur_width == width && cur_height == height
}

} // verus!
