//! The render hook's decisions: which swap chain it takes over and how, the frame-time
//! average it publishes, the frame limiter, and the present flags.
use vstd::prelude::*;
use crate::text::{chars_of, decimal, decimal_exec, extend_chars, string_of};

verus! {

broadcast use vstd::string::group_string_axioms;

/// The fields of a `DXGI_SWAP_CHAIN_DESC1`.
#[derive(Clone, Copy, Debug, PartialEq, Eq, Structural)]
pub struct SwapChainDesc {
    pub width: u32,
    pub height: u32,
    pub format: i32,
    pub stereo: bool,
    pub sample_count: u32,
    pub sample_quality: u32,
    pub buffer_usage: u32,
    pub buffer_count: u32,
    pub scaling: i32,
    pub swap_effect: i32,
    pub alpha_mode: i32,
    pub flags: u32,
}

/// `DXGI_USAGE_RENDER_TARGET_OUTPUT`.
pub const USAGE_RENDER_TARGET_OUTPUT: u32 = 0x20;
/// `DXGI_SWAP_EFFECT_FLIP_SEQUENTIAL`.
pub const SWAP_EFFECT_FLIP_SEQUENTIAL: i32 = 3;
/// `DXGI_ALPHA_MODE_IGNORE`.
pub const ALPHA_MODE_IGNORE: i32 = 3;
/// `DXGI_SWAP_CHAIN_FLAG_ALLOW_TEARING | DXGI_SWAP_CHAIN_FLAG_FRAME_LATENCY_WAITABLE_OBJECT`.
pub const TEARING_WAITABLE_FLAGS: u32 = 0x840;
/// `DXGI_PRESENT_ALLOW_TEARING`.
pub const PRESENT_ALLOW_TEARING: u32 = 0x200;

/// The hook takes over a swap chain when it is at least 600 by 600 and no main swap chain was
/// created yet.
pub open spec fn takes_over(width: u32, height: u32, main_created: bool) -> bool {
    !(width < 600 || height < 600 || main_created)
}

/// How many of the swap chains requested in turn, by size, the hook takes over, starting
/// with `main_created` and latching it once one was taken over.
pub open spec fn takeover_count(sizes: Seq<(u32, u32)>, main_created: bool) -> nat
    decreases sizes.len(),
{
    if sizes.len() == 0 {
        0
    } else {
        let t = takes_over(sizes[0].0, sizes[0].1, main_created);
        (if t {
            1nat
        } else {
            0nat
        }) + takeover_count(sizes.drop_first(), main_created || t)
    }
}

/// The hook takes over a swap chain only when it is the first one at least 600 by 600.
pub fn takes_over_swapchain(width: u32, height: u32, main_created: bool) -> (r: bool)
    ensures
        r == takes_over(width, height, main_created),
{
    !(width < 600 || height < 600 || main_created)
}

/// The description the hook creates the main swap chain with: two flip-sequential render
/// target buffers, alpha ignored, tearing allowed and a waitable frame latency object.
pub fn adjust_swapchain_desc(desc: SwapChainDesc) -> (r: SwapChainDesc)
    ensures
        r == (SwapChainDesc {
            buffer_usage: USAGE_RENDER_TARGET_OUTPUT,
            buffer_count: 2,
            swap_effect: SWAP_EFFECT_FLIP_SEQUENTIAL,
            alpha_mode: ALPHA_MODE_IGNORE,
            flags: TEARING_WAITABLE_FLAGS,
            ..desc
        }),
{
    SwapChainDesc {
        buffer_usage: USAGE_RENDER_TARGET_OUTPUT,
        buffer_count: 2,
        swap_effect: SWAP_EFFECT_FLIP_SEQUENTIAL,
        alpha_mode: ALPHA_MODE_IGNORE,
        flags: TEARING_WAITABLE_FLAGS,
        ..desc
    }
}

/// The new frame-time average: the first frame time as is, then an average that weighs the
/// previous value 31 to 1.
pub open spec fn next_average(avg: u64, frame_ns: u64) -> int {
    if avg == 0 {
        frame_ns as int
    } else {
        (avg * 31 + frame_ns) / 32
    }
}

/// The new frame-time average and the frame rate it stands for. The average must not
/// overflow and must not be zero (the rate divides by it).
pub fn frame_stats(avg: u64, frame_ns: u64) -> (r: (u64, u64))
    requires
        avg * 31 + frame_ns <= u64::MAX,
        next_average(avg, frame_ns) > 0,
    ensures
        r.0 == next_average(avg, frame_ns),
        r.1 == 1_000_000_000u64 / r.0,
{
    let next = if avg == 0 {
        frame_ns
    } else {
        (avg * 31 + frame_ns) / 32
    };
    (next, 1_000_000_000 / next)
}

/// The frame time that a frame limit asks for, in nanoseconds; no limit when it is zero.
pub fn frame_budget_ns(target_fps: u64) -> (r: Option<u64>)
    ensures
        target_fps == 0 ==> r is None,
        target_fps != 0 ==> r == Some(1_000_000_000u64 / target_fps),
{
    if target_fps == 0 {
        None
    } else {
        Some(1_000_000_000 / target_fps)
    }
}

/// How the limiter waits before a present.
#[derive(Clone, Copy, Debug, PartialEq, Eq, Structural)]
pub enum LimiterWait {
    /// The frame budget is already spent.
    Go,
    /// Sleep `sleep_ns`, then spin until the budget is spent.
    Wait { sleep_ns: u64 },
}

/// How long the limiter sleeps when `elapsed_ns` of a `budget_ns` frame have passed: it
/// sleeps for all but the last millisecond of what remains when more than two remain, and
/// spins the rest.
pub fn limiter_wait(budget_ns: u64, elapsed_ns: u64) -> (r: LimiterWait)
    ensures
        elapsed_ns >= budget_ns ==> r == LimiterWait::Go,
        elapsed_ns < budget_ns && budget_ns - elapsed_ns > 2_000_000 ==> r == (LimiterWait::Wait {
            sleep_ns: (budget_ns - elapsed_ns - 1_000_000) as u64,
        }),
        elapsed_ns < budget_ns && budget_ns - elapsed_ns <= 2_000_000 ==> r == (LimiterWait::Wait {
            sleep_ns: 0,
        }),
{
    if elapsed_ns >= budget_ns {
        LimiterWait::Go
    } else {
        let remaining = budget_ns - elapsed_ns;
        if remaining > 2_000_000 {
            LimiterWait::Wait { sleep_ns: remaining - 1_000_000 }
        } else {
            LimiterWait::Wait { sleep_ns: 0 }
        }
    }
}

/// The limiter at one moment of a present: `last` is when it last let a present go (on a
/// monotonic clock, in nanoseconds) and `now` is the moment. With a frame limit it holds the
/// present while less than one frame time has passed since `last`, and when it lets the
/// present go it stamps `now`; without a limit it lets the present go and leaves the stamp
/// as it is. The result is whether the present goes, and the new stamp.
pub open spec fn limiter_tick(last: Option<u64>, now: u64, target_fps: u64) -> (bool, Option<u64>) {
    if target_fps == 0 {
        (true, last)
    } else {
        match last {
            Some(prev) => {
                let elapsed = if now >= prev {
                    now - prev
                } else {
                    0
                };
                if elapsed < 1_000_000_000u64 / target_fps {
                    (false, last)
                } else {
                    (true, Some(now))
                }
            },
            None => (true, Some(now)),
        }
    }
}

/// One check of the limiter: whether the present goes now, and the limiter's new stamp.
pub fn limiter_step(last: Option<u64>, now: u64, target_fps: u64) -> (r: (bool, Option<u64>))
    ensures
        r == limiter_tick(last, now, target_fps),
{
    match frame_budget_ns(target_fps) {
        None => (true, last),
        Some(budget) => match last {
            Some(prev) => {
                let elapsed = if now >= prev {
                    now - prev
                } else {
                    0
                };
                if elapsed < budget {
                    (false, last)
                } else {
                    (true, Some(now))
                }
            },
            None => (true, Some(now)),
        },
    }
}

/// The present flags: tearing is allowed when presenting without vertical sync.
pub fn present_flags(sync_interval: u32, flags: u32) -> (r: u32)
    ensures
        r == (if sync_interval == 0 {
            flags | PRESENT_ALLOW_TEARING
        } else {
            flags
        }),
{
    if sync_interval == 0 {
        flags | PRESENT_ALLOW_TEARING
    } else {
        flags
    }
}

/// The flags to present again with after a failed present: without tearing, when the failed
/// present allowed it; no second try otherwise.
pub fn retry_flags(flags: u32) -> (r: Option<u32>)
    ensures
        flags & PRESENT_ALLOW_TEARING != 0 ==> r == Some(flags & !PRESENT_ALLOW_TEARING),
        flags & PRESENT_ALLOW_TEARING == 0 ==> r is None,
{
    if flags & PRESENT_ALLOW_TEARING != 0 {
        Some(flags & !PRESENT_ALLOW_TEARING)
    } else {
        None
    }
}

/// The message that reports a frame rate to the page.
pub open spec fn fps_message(fps: u64) -> Seq<char> {
    "{\"fpsInfo\":"@ + decimal(fps as nat) + "}"@
}

/// The render statistics the client reports: a message when the rate is above zero and the
/// statistics changed since the last report, which they then become.
pub fn fps_report(last: Option<(u64, u64)>, fps: u64, frame_ns: u64) -> (r: (
    Option<(u64, u64)>,
    Option<String>,
))
    ensures
        fps > 0 && last != Some((fps, frame_ns)) ==> r.0 == Some((fps, frame_ns)) && (r.1 matches Some(m)
            && m@ == fps_message(fps)),
        !(fps > 0 && last != Some((fps, frame_ns))) ==> r.0 == last && r.1 is None,
{
    let changed = match last {
        Some((a, b)) => a != fps || b != frame_ns,
        None => true,
    };
    if fps > 0 && changed {
        let mut m = chars_of("{\"fpsInfo\":");
        let d = decimal_exec(fps);
        extend_chars(&mut m, d.as_slice());
        let close = chars_of("}");
        extend_chars(&mut m, close.as_slice());
        (Some((fps, frame_ns)), Some(string_of(m.as_slice())))
    } else {
        (last, None)
    }
}

} // verus!
