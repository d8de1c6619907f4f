use vstd::prelude::*;
use crate::geometry::{Rect, surface_rect_spec, resize_video_child};

verus! {

/// What one poll reads from the engine. Number properties are carried as
/// fixed-point values in thousandths: times in milliseconds, and the `pause`
/// flag as 0 or 1000.
#[derive(Clone, Copy, Debug, PartialEq, Eq, Structural)]
pub struct Snapshot {
    pub position_ms: i64,
    pub duration_ms: i64,
    pub pause_milli: i64,
}

/// The parent window's client size in physical pixels and its display scale in
/// thousandths, as the UI reports them at the time of a tick.
#[derive(Clone, Copy, Debug, PartialEq, Eq, Structural)]
pub struct WindowMetrics {
    pub width: u32,
    pub height: u32,
    pub scale_milli: u32,
}

/// The position used when `time-pos` cannot be read.
pub const DEFAULT_POSITION_MS: i64 = 0;
/// The duration used when `duration` cannot be read; also the bound that a
/// duration must pass before the UI shows it.
pub const DEFAULT_DURATION_MS: i64 = 1000;
/// The `pause` reading above which playback counts as paused.
pub const PAUSE_THRESHOLD_MILLI: i64 = 500;

impl Snapshot {
    /// A snapshot from three property reads, each `None` where the read failed:
    /// position then defaults to 0, duration to one second, pause to 0.
    pub fn from_reads(position: Option<i64>, duration: Option<i64>, pause: Option<i64>) -> (r: Snapshot)
        ensures
            r.position_ms == (match position { Some(v) => v, None => 0 }),
            r.duration_ms == (match duration { Some(v) => v, None => 1000 }),
            r.pause_milli == (match pause { Some(v) => v, None => 0 }),
    {
        Snapshot {
            position_ms: match position { Some(v) => v, None => DEFAULT_POSITION_MS },
            duration_ms: match duration { Some(v) => v, None => DEFAULT_DURATION_MS },
            pause_milli: match pause { Some(v) => v, None => 0 },
        }
    }
}

/// One step of a poll tick, carried out in order by the UI side.
#[derive(Clone, Copy, Debug, PartialEq, Eq, Structural)]
pub enum TickStep {
    /// Move the video surface to this rectangle.
    Resize(Rect),
    /// Show the paused flag.
    SetPaused(bool),
    /// Raise echo suppression.
    SuppressEcho,
    /// Write the slider position, in milliseconds.
    SetPosition(i64),
    /// Lower echo suppression.
    ReleaseEcho,
    /// Show this duration, in milliseconds.
    SetDuration(i64),
    /// Show the label that `time_label` gives for these two times.
    SetTimeLabel { position_ms: i64, duration_ms: i64 },
}

/// The steps of one tick for a surface (zero while none exists), a snapshot and
/// the window's metrics.
pub open spec fn tick_steps(surface: u64, snap: Snapshot, m: WindowMetrics) -> Seq<TickStep> {
    let resize: Seq<TickStep> = if surface == 0 {
        Seq::empty()
    } else {
        seq![TickStep::Resize(surface_rect_spec(m.width as int, m.height as int, m.scale_milli as int))]
    };
    let duration: Seq<TickStep> = if snap.duration_ms > 1000 {
        seq![TickStep::SetDuration(snap.duration_ms)]
    } else {
        Seq::empty()
    };
    resize + seq![
        TickStep::SetPaused(snap.pause_milli > 500),
        TickStep::SuppressEcho,
        TickStep::SetPosition(snap.position_ms),
        TickStep::ReleaseEcho,
    ] + duration + seq![TickStep::SetTimeLabel { position_ms: snap.position_ms, duration_ms: snap.duration_ms }]
}

/// The echo-suppression flag after the first `k` steps, starting from `start`.
pub open spec fn echo_after(start: bool, steps: Seq<TickStep>, k: int) -> bool
    decreases k,
{
    if k <= 0 {
        start
    } else {
        let prev = echo_after(start, steps, k - 1);
        match steps[k - 1] {
            TickStep::SuppressEcho => true,
            TickStep::ReleaseEcho => false,
            _ => prev,
        }
    }
}

/// The duration the UI shows after the steps, starting from `shown`.
pub open spec fn shown_duration(shown: int, steps: Seq<TickStep>) -> int
    decreases steps.len(),
{
    if steps.len() == 0 {
        shown
    } else {
        let prev = shown_duration(shown, steps.drop_last());
        match steps.last() {
            TickStep::SetDuration(d) => d as int,
            _ => prev,
        }
    }
}

/// What a slider seek sets `time-pos` to: nothing while echo suppression is
/// up, else the requested position.
pub open spec fn seek_target(s: Session, position_ms: i64) -> Option<i64> {
    if s.suppress_seek_echo { None } else { Some(position_ms) }
}

/// The playback session's own state: the video surface (zero until startup
/// creates it) and the echo-suppression flag.
#[derive(Debug)]
pub struct Session {
    pub surface: u64,
    pub suppress_seek_echo: bool,
}

impl Session {
    /// A session with no surface yet and echo suppression down.
    pub fn new() -> (r: Session)
        ensures
            r.surface == 0,
            !r.suppress_seek_echo,
    {
        Session { surface: 0, suppress_seek_echo: false }
    }

    /// The steps of one poll tick for the snapshot just read.
    pub fn poll_tick(&self, snap: Snapshot, m: WindowMetrics) -> (r: Vec<TickStep>)
        ensures
            r@ =~= tick_steps(self.surface, snap, m),
    {
        let mut r: Vec<TickStep> = Vec::new();
        match resize_video_child(self.surface, m.width, m.height, m.scale_milli) {
            Some(rect) => r.push(TickStep::Resize(rect)),
            None => {},
        }
        r.push(TickStep::SetPaused(snap.pause_milli > PAUSE_THRESHOLD_MILLI));
        r.push(TickStep::SuppressEcho);
        r.push(TickStep::SetPosition(snap.position_ms));
        r.push(TickStep::ReleaseEcho);
        if snap.duration_ms > DEFAULT_DURATION_MS {
            r.push(TickStep::SetDuration(snap.duration_ms));
        }
        r.push(TickStep::SetTimeLabel { position_ms: snap.position_ms, duration_ms: snap.duration_ms });
        r
    }

    /// Follows a tick step's effect on echo suppression.
    pub fn apply_echo(&mut self, step: &TickStep)
        ensures
            final(self).surface == old(self).surface,
            final(self).suppress_seek_echo == (match *step {
                TickStep::SuppressEcho => true,
                TickStep::ReleaseEcho => false,
                _ => old(self).suppress_seek_echo,
            }),
    {
        match step {
            TickStep::SuppressEcho => self.suppress_seek_echo = true,
            TickStep::ReleaseEcho => self.suppress_seek_echo = false,
            _ => {},
        }
    }

    /// A seek from the slider: the absolute `time-pos` to set, in milliseconds,
    /// or `None` when the event is the echo of a tick's own position write.
    pub fn seek_request(&self, position_ms: i64) -> (r: Option<i64>)
        ensures
            r == seek_target(*self, position_ms),
    {
        if self.suppress_seek_echo {
            None
        } else {
            Some(position_ms)
        }
    }
}

/// A tick changes the shown duration only to a duration longer than one
/// second; a duration of one second or less leaves the shown one as it was.
pub proof fn tick_keeps_short_duration(surface: u64, snap: Snapshot, m: WindowMetrics, shown: int)
    ensures
        snap.duration_ms <= 1000 ==> shown_duration(shown, tick_steps(surface, snap, m)) == shown,
        snap.duration_ms > 1000 ==> shown_duration(shown, tick_steps(surface, snap, m))
            == snap.duration_ms,
{
    let steps = tick_steps(surface, snap, m);
    let resize: Seq<TickStep> = if surface == 0 {
        Seq::empty()
    } else {
        seq![TickStep::Resize(surface_rect_spec(m.width as int, m.height as int, m.scale_milli as int))]
    };
    let pre = resize + seq![
        TickStep::SetPaused(snap.pause_milli > 500),
        TickStep::SuppressEcho,
        TickStep::SetPosition(snap.position_ms),
        TickStep::ReleaseEcho,
    ];
    let duration: Seq<TickStep> = if snap.duration_ms > 1000 {
        seq![TickStep::SetDuration(snap.duration_ms)]
    } else {
        Seq::empty()
    };
    let post = seq![TickStep::SetTimeLabel { position_ms: snap.position_ms, duration_ms: snap.duration_ms }];
    assert(steps =~= (pre + duration) + post);
    shown_duration_append(shown, pre + duration, post);
    shown_duration_append(shown, pre, duration);
    shown_duration_no_change(shown, pre);
    shown_duration_no_change(shown_duration(shown, pre + duration), post);
    if snap.duration_ms <= 1000 {
        assert(pre + duration =~= pre);
    } else {
        reveal_with_fuel(shown_duration, 2);
    }
}

/// The shown duration after two runs of steps is that of the second run,
/// started from the first's.
proof fn shown_duration_append(shown: int, a: Seq<TickStep>, b: Seq<TickStep>)
    ensures
        shown_duration(shown, a + b) == shown_duration(shown_duration(shown, a), b),
    decreases b.len(),
{
    if b.len() == 0 {
        assert(a + b =~= a);
    } else {
        assert((a + b).drop_last() =~= a + b.drop_last());
        shown_duration_append(shown, a, b.drop_last());
    }
}

/// Steps that set no duration leave the shown one as it was.
proof fn shown_duration_no_change(shown: int, steps: Seq<TickStep>)
    requires
        forall|i: int| 0 <= i < steps.len() ==> !(steps[i] is SetDuration),
    ensures
        shown_duration(shown, steps) == shown,
    decreases steps.len(),
{
    if steps.len() > 0 {
        shown_duration_no_change(shown, steps.drop_last());
    }
}

/// While echo suppression is up, a slider seek sets no `time-pos`.
pub proof fn suppressed_seek_sets_nothing(s: Session, position_ms: i64)
    requires
        s.suppress_seek_echo,
    ensures
        seek_target(s, position_ms) is None,
{
}

/// Across a tick that starts with echo suppression down, the flag is up while
/// the position is written, is up before no other step but the one that lowers
/// it, and is down again when the tick ends.
pub proof fn echo_window_spans_position_write(surface: u64, snap: Snapshot, m: WindowMetrics)
    ensures
        ({
            let steps = tick_steps(surface, snap, m);
            &&& forall|k: int| 0 <= k < steps.len() && steps[k] is SetPosition ==>
                echo_after(false, steps, k)
            &&& forall|k: int| 0 <= k < steps.len() && echo_after(false, steps, k) ==>
                (steps[k] is SetPosition || steps[k] is ReleaseEcho)
            &&& !echo_after(false, steps, steps.len() as int)
        }),
{
    let steps = tick_steps(surface, snap, m);
    let resize: Seq<TickStep> = if surface == 0 {
        Seq::empty()
    } else {
        seq![TickStep::Resize(surface_rect_spec(m.width as int, m.height as int, m.scale_milli as int))]
    };
    let window = seq![
        TickStep::SetPaused(snap.pause_milli > 500),
        TickStep::SuppressEcho,
        TickStep::SetPosition(snap.position_ms),
        TickStep::ReleaseEcho,
    ];
    let duration: Seq<TickStep> = if snap.duration_ms > 1000 {
        seq![TickStep::SetDuration(snap.duration_ms)]
    } else {
        Seq::empty()
    };
    let rest = duration + seq![TickStep::SetTimeLabel { position_ms: snap.position_ms, duration_ms: snap.duration_ms }];
    let r = resize.len() as int;
    assert(steps =~= (resize + window) + rest);
    reveal_with_fuel(echo_after, 5);
    assert(echo_after(false, window, 4) == false);
    echo_after_untouched(false, resize, r);
    echo_after_append(false, resize, window, 4);
    echo_after_untouched(false, rest, rest.len() as int);
    assert forall|k: int| 0 <= k <= steps.len() implies
        (k < steps.len() && steps[k] is SetPosition ==> echo_after(false, steps, k))
        && (k < steps.len() && echo_after(false, steps, k) ==>
            (steps[k] is SetPosition || steps[k] is ReleaseEcho))
        && (k == steps.len() ==> !echo_after(false, steps, k)) by {
        if k < r {
            echo_after_prefix(false, resize + window, rest, k);
            echo_after_prefix(false, resize, window, k);
            echo_after_untouched(false, resize, k);
        } else if k < r + 4 {
            echo_after_prefix(false, resize + window, rest, k);
            echo_after_append(false, resize, window, k - r);
        } else {
            echo_after_append(false, resize + window, rest, k - r - 4);
            echo_after_untouched(false, rest, k - r - 4);
        }
    }
}

/// The flag after the first `k` steps of `a + b`, within `a`, is that after the
/// first `k` steps of `a`.
proof fn echo_after_prefix(start: bool, a: Seq<TickStep>, b: Seq<TickStep>, k: int)
    requires
        0 <= k <= a.len(),
    ensures
        echo_after(start, a + b, k) == echo_after(start, a, k),
    decreases k,
{
    if k > 0 {
        echo_after_prefix(start, a, b, k - 1);
    }
}

/// The flag after all of `a` and the first `j` steps of `b` is that after the
/// first `j` steps of `b`, started from the flag after `a`.
proof fn echo_after_append(start: bool, a: Seq<TickStep>, b: Seq<TickStep>, j: int)
    requires
        0 <= j <= b.len(),
    ensures
        echo_after(start, a + b, a.len() + j) == echo_after(echo_after(start, a, a.len() as int), b, j),
    decreases j,
{
    if j == 0 {
        echo_after_prefix(start, a, b, a.len() as int);
    } else {
        echo_after_append(start, a, b, j - 1);
    }
}

/// Steps that neither raise nor lower echo suppression leave the flag as it was.
proof fn echo_after_untouched(start: bool, steps: Seq<TickStep>, k: int)
    requires
        0 <= k <= steps.len(),
        forall|i: int| 0 <= i < steps.len() ==> !(steps[i] is SuppressEcho) && !(steps[i] is ReleaseEcho),
    ensures
        echo_after(start, steps, k) == start,
    decreases k,
{
    if k > 0 {
        echo_after_untouched(start, steps, k - 1);
    }
}

} // verus!
