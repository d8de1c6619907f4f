use photon_player::bridge::{Session, Snapshot, TickStep, WindowMetrics};
use photon_player::command::{Command, SeekMode};
use photon_player::geometry::{control_bar_px, resize_video_child, surface_rect, Rect};
use photon_player::keys::{key_command, same_text};
use photon_player::startup::{init_status, property_set_status, startup_plan, EngineOption, PlayerError, StartupStep};
use photon_player::text::{format_time, signed_decimal_string, time_label};

fn metrics(width: u32, height: u32) -> WindowMetrics {
    WindowMetrics { width, height, scale_milli: 1000 }
}

fn snapshot(position_ms: i64, duration_ms: i64, pause_milli: i64) -> Snapshot {
    Snapshot { position_ms, duration_ms, pause_milli }
}

fn shown_duration_after(shown: i64, steps: &[TickStep]) -> i64 {
    let mut d = shown;
    for s in steps {
        if let TickStep::SetDuration(v) = s {
            d = *v;
        }
    }
    d
}

#[test]
fn format_time_truncates_to_whole_seconds() {
    assert_eq!(format_time(125_700), "02:05");
    assert_eq!(format_time(59_900), "00:59");
    assert_eq!(format_time(0), "00:00");
}

#[test]
fn format_time_edges() {
    assert_eq!(format_time(-3_000), "00:00");
    assert_eq!(format_time(3_600_000), "60:00");
    assert_eq!(format_time(6_000_000), "100:00");
    assert_eq!(format_time(999), "00:00");
}

#[test]
fn time_label_joins_position_and_duration() {
    assert_eq!(time_label(65_000, 125_700), "01:05 / 02:05");
}

#[test]
fn signed_decimal_text() {
    assert_eq!(signed_decimal_string(5), "5");
    assert_eq!(signed_decimal_string(-5), "-5");
    assert_eq!(signed_decimal_string(0), "0");
    assert_eq!(signed_decimal_string(i64::MIN), "-9223372036854775808");
}

#[test]
fn surface_rect_leaves_room_for_control_bar() {
    assert_eq!(surface_rect(800, 600, 1000), Rect { x: 0, y: 0, width: 800, height: 520 });
}

#[test]
fn surface_rect_height_clamps_to_zero() {
    assert_eq!(surface_rect(800, 50, 1000).height, 0);
}

#[test]
fn control_bar_scales_and_rounds() {
    assert_eq!(control_bar_px(1000), 80);
    assert_eq!(control_bar_px(1500), 120);
    assert_eq!(control_bar_px(1256), 100);
    assert_eq!(surface_rect(1600, 1200, 2000), Rect { x: 0, y: 0, width: 1600, height: 1040 });
}

#[test]
fn resize_skips_missing_surface() {
    assert_eq!(resize_video_child(0, 800, 600, 1000), None);
    assert_eq!(resize_video_child(42, 800, 600, 1000), Some(Rect { x: 0, y: 0, width: 800, height: 520 }));
}

#[test]
fn right_key_seeks_forward_five_seconds() {
    for k in ["ArrowRight", "\u{f703}"] {
        let c = key_command(k).unwrap();
        assert!(matches!(c, Command::Seek { mode: SeekMode::Relative, seconds: 5 }));
        assert_eq!(c.tokens(), vec!["seek", "5", "relative"]);
    }
}

#[test]
fn left_key_seeks_back_five_seconds() {
    for k in ["ArrowLeft", "\u{f702}"] {
        let c = key_command(k).unwrap();
        assert!(matches!(c, Command::Seek { mode: SeekMode::Relative, seconds: -5 }));
        assert_eq!(c.tokens(), vec!["seek", "-5", "relative"]);
    }
}

#[test]
fn space_toggles_pause_once() {
    let c = key_command(" ").unwrap();
    assert!(matches!(c, Command::TogglePause));
    let toks = c.tokens();
    assert_eq!(toks, vec!["cycle", "pause"]);
    assert_eq!(toks.iter().filter(|t| t.as_str() == "cycle").count(), 1);
}

#[test]
fn other_keys_do_nothing() {
    assert!(key_command("a").is_none());
    assert!(key_command("").is_none());
    assert!(key_command("  ").is_none());
    assert!(key_command("Arrow").is_none());
}

#[test]
fn same_text_compares_characters() {
    assert!(same_text("ab", "ab"));
    assert!(!same_text("ab", "ac"));
    assert!(!same_text("ab", "abc"));
}

#[test]
fn command_tokens_for_load_and_absolute_seek() {
    let load = Command::Load { path: String::from("C:/test.mp4") };
    assert_eq!(load.tokens(), vec!["loadfile", "C:/test.mp4"]);
    let seek = Command::Seek { mode: SeekMode::Absolute, seconds: 30 };
    assert_eq!(seek.tokens(), vec!["seek", "30", "absolute"]);
}

#[test]
fn snapshot_defaults_on_failed_reads() {
    assert_eq!(Snapshot::from_reads(None, None, None), snapshot(0, 1000, 0));
    assert_eq!(Snapshot::from_reads(Some(1500), Some(90_000), Some(1000)), snapshot(1500, 90_000, 1000));
}

#[test]
fn tick_keeps_duration_when_engine_reports_one_second_or_less() {
    let s = Session::new();
    let steps = s.poll_tick(snapshot(0, 1000, 0), metrics(800, 600));
    assert!(!steps.iter().any(|t| matches!(t, TickStep::SetDuration(_))));
    assert_eq!(shown_duration_after(42_000, &steps), 42_000);
    let steps = s.poll_tick(snapshot(0, 500, 0), metrics(800, 600));
    assert_eq!(shown_duration_after(42_000, &steps), 42_000);
}

#[test]
fn tick_shows_longer_duration() {
    let s = Session::new();
    let steps = s.poll_tick(snapshot(0, 1001, 0), metrics(800, 600));
    assert_eq!(shown_duration_after(42_000, &steps), 1001);
}

#[test]
fn tick_steps_in_order() {
    let mut s = Session::new();
    s.start(7).unwrap();
    let steps = s.poll_tick(snapshot(65_000, 125_700, 1000), metrics(800, 600));
    assert_eq!(
        steps,
        vec![
            TickStep::Resize(Rect { x: 0, y: 0, width: 800, height: 520 }),
            TickStep::SetPaused(true),
            TickStep::SuppressEcho,
            TickStep::SetPosition(65_000),
            TickStep::ReleaseEcho,
            TickStep::SetDuration(125_700),
            TickStep::SetTimeLabel { position_ms: 65_000, duration_ms: 125_700 },
        ]
    );
}

#[test]
fn pause_reading_at_threshold_is_playing() {
    let s = Session::new();
    let steps = s.poll_tick(snapshot(0, 0, 500), metrics(800, 600));
    assert_eq!(steps[0], TickStep::SetPaused(false));
    let steps = s.poll_tick(snapshot(0, 0, 501), metrics(800, 600));
    assert_eq!(steps[0], TickStep::SetPaused(true));
}

#[test]
fn seek_during_echo_window_is_dropped() {
    let mut s = Session::new();
    let steps = s.poll_tick(snapshot(3000, 90_000, 0), metrics(800, 600));
    let mut seeks = Vec::new();
    for step in &steps {
        s.apply_echo(step);
        if let TickStep::SetPosition(p) = step {
            seeks.push(s.seek_request(*p));
        }
    }
    assert_eq!(seeks, vec![None]);
    assert!(!s.suppress_seek_echo);
    assert_eq!(s.seek_request(12_000), Some(12_000));
}

#[test]
fn echo_flag_down_before_and_after_position_write() {
    let mut s = Session::new();
    let steps = s.poll_tick(snapshot(3000, 90_000, 0), metrics(800, 600));
    for step in &steps {
        let before = s.suppress_seek_echo;
        match step {
            TickStep::SuppressEcho => assert!(!before),
            TickStep::SetPosition(_) => assert!(before),
            TickStep::ReleaseEcho => assert!(before),
            _ => assert!(!before),
        }
        s.apply_echo(step);
    }
    assert!(!s.suppress_seek_echo);
}

#[test]
fn startup_sets_wid_before_initialize() {
    let mut s = Session::new();
    let steps = s.start(123_456).unwrap();
    assert_eq!(s.surface, 123_456);
    let wid = steps.iter().position(|t| *t == StartupStep::SetOption(EngineOption::Wid)).unwrap();
    let init = steps.iter().position(|t| *t == StartupStep::Initialize).unwrap();
    assert!(wid < init);
    assert_eq!(EngineOption::Wid.name(), "wid");
    assert_eq!(EngineOption::Wid.value(s.surface), "123456");
    assert_eq!(steps, startup_plan());
    assert_eq!(*steps.last().unwrap(), StartupStep::LoadInitial);
}

#[test]
fn startup_options_and_values() {
    assert_eq!(EngineOption::Vo.name(), "vo");
    assert_eq!(EngineOption::Vo.value(1), "gpu");
    assert_eq!(EngineOption::Hwdec.value(1), "auto");
    assert_eq!(EngineOption::Terminal.value(1), "no");
    assert_eq!(EngineOption::KeepOpen.value(1), "yes");
    assert_eq!(EngineOption::OsdLevel.value(1), "0");
    assert_eq!(EngineOption::InputDefaultBindings.name(), "input-default-bindings");
}

#[test]
fn startup_fails_without_surface() {
    let mut s = Session::new();
    assert_eq!(s.start(0).unwrap_err(), PlayerError::PlatformSurfaceCreationFailed);
    assert_eq!(s.surface, 0);
}

#[test]
fn status_codes_map_to_errors() {
    assert_eq!(init_status(-1), Err(PlayerError::EngineInitFailed));
    assert_eq!(init_status(0), Ok(()));
    assert_eq!(property_set_status(-7), Err(PlayerError::PropertySetFailed(-7)));
    assert_eq!(property_set_status(0), Ok(()));
}
