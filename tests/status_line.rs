use dwm_status::clock::{date, LocalTime};
use dwm_status::compose::{compose, separated, status, Readings};
use dwm_status::lifecycle::{final_message, Coordinator, LifecycleEvent, ShutdownSignal};
use dwm_status::scheduler::{
    banner, effective_timeout, Mailbox, Notification, Phase, Scheduler, MAX_BANNER_MS,
};
use dwm_status::sensors::{
    battery, cpu, mail, network, plugged, ram, read_count, read_flag, volume, AddrKind, Memory,
};

fn s(x: &str) -> String {
    x.to_string()
}

#[test]
fn volume_thresholds() {
    assert_eq!(volume(Some(false), Some(0)), "🔈 0");
    assert_eq!(volume(Some(false), Some(33)), "🔈 33");
    assert_eq!(volume(Some(false), Some(34)), "🔉 34");
    assert_eq!(volume(Some(false), Some(66)), "🔉 66");
    assert_eq!(volume(Some(false), Some(67)), "🔊 67");
    assert_eq!(volume(Some(false), Some(100)), "🔊 100");
}

#[test]
fn volume_muted_shows_icon_only() {
    assert_eq!(volume(Some(true), Some(50)), "🔇");
    assert_eq!(volume(Some(true), None), "🔇");
}

#[test]
fn volume_without_readings() {
    assert_eq!(volume(None, None), "");
    assert_eq!(volume(None, Some(10)), "🔈 10");
    assert_eq!(volume(Some(false), Some(-5)), "🔊 -5");
}

#[test]
fn network_wired_wins() {
    let wired = Some(vec![AddrKind::V6, AddrKind::V4]);
    let wireless = Some(vec![AddrKind::V4]);
    assert_eq!(network(&wired, &wireless), "⇅");
    assert_eq!(network(&wired, &None), "⇅");
}

#[test]
fn network_wireless_when_wired_has_no_ipv4() {
    let wireless = Some(vec![AddrKind::V4]);
    assert_eq!(network(&None, &wireless), "📡");
    assert_eq!(network(&Some(vec![AddrKind::V6]), &wireless), "📡");
}

#[test]
fn network_neither() {
    assert_eq!(network(&None, &None), "");
    assert_eq!(network(&Some(vec![AddrKind::Empty]), &Some(vec![AddrKind::V6, AddrKind::Unsupported])), "");
}

#[test]
fn banner_timeout_clamping() {
    assert_eq!(effective_timeout(-1), MAX_BANNER_MS);
    assert_eq!(effective_timeout(-500), MAX_BANNER_MS);
    assert_eq!(effective_timeout(10001), MAX_BANNER_MS);
    assert_eq!(effective_timeout(60000), 10000);
    assert_eq!(effective_timeout(10000), 10000);
    assert_eq!(effective_timeout(0), 0);
    assert_eq!(effective_timeout(2500), 2500);
}

#[test]
fn mail_only_when_positive() {
    assert_eq!(mail(Some(3)), "📧 3");
    assert_eq!(mail(Some(120)), "📧 120");
    assert_eq!(mail(Some(0)), "");
    assert_eq!(mail(Some(-2)), "");
    assert_eq!(mail(None), "");
}

#[test]
fn command_output_reading() {
    assert_eq!(read_count(" 42\n"), Some(42));
    assert_eq!(read_count("-7"), Some(-7));
    assert_eq!(read_count("abc"), None);
    assert_eq!(read_count(""), None);
    assert_eq!(read_count("99999999999"), None);
    assert!(read_flag("true\n"));
    assert!(!read_flag("false\n"));
    assert!(!read_flag("yes"));
}

#[test]
fn power_and_battery() {
    assert_eq!(plugged(Some(true)), "🔌");
    assert_eq!(plugged(Some(false)), "🔋");
    assert_eq!(plugged(None), "🔌");
    assert_eq!(battery(Some(true), Some(800)), "🔌 80.0%");
    assert_eq!(battery(Some(false), Some(457)), "🔋 45.7%");
    assert_eq!(battery(None, Some(1000)), "🔌 100.0%");
    assert_eq!(battery(Some(true), None), "");
}

#[test]
fn memory_and_load() {
    assert_eq!(ram(Some(Memory { total: 1024, free: 512 })), "▯ 512 B");
    assert_eq!(ram(Some(Memory { total: 10, free: 20 })), "▯ 0 B");
    assert_eq!(ram(None), "▯ _");
    assert_eq!(cpu(Some(50)), "⚙ 0.50");
    assert_eq!(cpu(Some(5)), "⚙ 0.05");
    assert_eq!(cpu(Some(1234)), "⚙ 12.34");
    assert_eq!(cpu(None), "⚙ _");
}

#[test]
fn clock_field() {
    let t = LocalTime::new(2024, 3, 5, 14, 7).unwrap();
    assert_eq!(date(&t), "📆 Tue, 05 Mar ⸱ 🕓 14:07");
}

#[test]
fn local_time_validity() {
    assert!(LocalTime::new(2024, 2, 29, 0, 0).is_some());
    assert!(LocalTime::new(2023, 2, 29, 0, 0).is_none());
    assert!(LocalTime::new(1900, 2, 29, 0, 0).is_none());
    assert!(LocalTime::new(2000, 2, 29, 23, 59).is_some());
    assert!(LocalTime::new(2024, 4, 31, 0, 0).is_none());
    assert!(LocalTime::new(2024, 13, 1, 0, 0).is_none());
    assert!(LocalTime::new(2024, 1, 1, 24, 0).is_none());
    assert!(LocalTime::new(2024, 1, 1, 0, 60).is_none());
}

#[test]
fn separated_fields() {
    assert_eq!(separated(s("")), "");
    assert_eq!(separated(s("x")), "x ⸱ ");
}

#[test]
fn compose_skips_empty_fields() {
    let fields = vec![s(""), s("a"), s(""), s(""), s("b"), s("")];
    assert_eq!(compose(&fields, "t"), "a ⸱ b ⸱ t");
    assert_eq!(compose(&vec![s(""), s("")], "t"), "t");
    assert_eq!(compose(&vec![], ""), "");
}

#[test]
fn end_to_end_line() {
    let t = LocalTime::new(2024, 3, 5, 14, 7).unwrap();
    let readings = Readings {
        mail: s(""),
        volume: s("🔈 10"),
        network: s("📡"),
        battery: s("🔌 80.0%"),
        ram: s("▯ 512"),
        cpu: s("⚙ 0.50"),
        date: date(&t),
    };
    assert_eq!(
        status(&readings),
        "🔈 10 ⸱ 📡 ⸱ 🔌 80.0% ⸱ ▯ 512 ⸱ ⚙ 0.50 ⸱ 📆 Tue, 05 Mar ⸱ 🕓 14:07"
    );
}

#[test]
fn end_to_end_line_from_sensors() {
    let t = LocalTime::new(2024, 3, 5, 14, 7).unwrap();
    let readings = Readings {
        mail: mail(Some(2)),
        volume: volume(Some(false), Some(10)),
        network: network(&None, &Some(vec![AddrKind::V4])),
        battery: battery(Some(true), Some(800)),
        ram: ram(Some(Memory { total: 600, free: 88 })),
        cpu: cpu(Some(50)),
        date: date(&t),
    };
    assert_eq!(
        status(&readings),
        "📧 2 ⸱ 🔈 10 ⸱ 📡 ⸱ 🔌 80.0% ⸱ ▯ 512 B ⸱ ⚙ 0.50 ⸱ 📆 Tue, 05 Mar ⸱ 🕓 14:07"
    );
}

#[test]
fn scheduler_publishes_only_changes() {
    let mut sch = Scheduler::new();
    assert_eq!(sch.phase(), Phase::Idle);
    assert_eq!(sch.on_status(s("a")), Some(s("a")));
    assert_eq!(sch.on_status(s("a")), None);
    assert_eq!(sch.on_status(s("b")), Some(s("b")));
    assert_eq!(sch.published(), "b");
    assert_eq!(sch.on_status(s("")), Some(s("")));
}

#[test]
fn scheduler_initial_empty_line_is_not_published() {
    let mut sch = Scheduler::new();
    assert_eq!(sch.on_status(s("")), None);
}

#[test]
fn scheduler_banner_then_status() {
    let mut sch = Scheduler::new();
    sch.on_status(s("line"));
    let n = Notification { summary: s("Hi"), body: s("there"), timeout: -1 };
    assert_eq!(banner(&n), "Hi there");
    let plan = sch.on_notification(&n);
    assert_eq!(plan.publish, Some(s("Hi there")));
    assert_eq!(plan.sleep_ms, 10000);
    assert_eq!(sch.phase(), Phase::BannerActive);
    let again = sch.on_notification(&Notification { summary: s("Hi"), body: s("there"), timeout: 0 });
    assert_eq!(again.publish, None);
    assert_eq!(again.sleep_ms, 0);
    assert_eq!(sch.on_status(s("line")), Some(s("line")));
    assert_eq!(sch.phase(), Phase::Idle);
}

#[test]
fn mailbox_latest_wins() {
    let mut mb = Mailbox::new();
    assert!(mb.take().is_none());
    mb.offer(Notification { summary: s("one"), body: s(""), timeout: 5 });
    mb.offer(Notification { summary: s("two"), body: s(""), timeout: 7 });
    let n = mb.take().unwrap();
    assert_eq!(n.summary, "two");
    assert_eq!(n.timeout, 7);
    assert!(mb.take().is_none());
}

#[test]
fn signal_gives_one_final_publish() {
    let mut c = Coordinator::new();
    assert!(c.may_poll());
    let first = c.on_event(LifecycleEvent::Signal(ShutdownSignal::Interrupt));
    assert_eq!(first, Some(s("rust-dwm-status stopped with signal INT.")));
    assert!(!c.may_poll());
    assert_eq!(c.on_event(LifecycleEvent::Signal(ShutdownSignal::Terminate)), None);
    assert_eq!(c.on_event(LifecycleEvent::WorkDone), None);
}

#[test]
fn final_messages() {
    assert_eq!(
        final_message(LifecycleEvent::Signal(ShutdownSignal::Terminate)),
        "rust-dwm-status stopped with signal TERM."
    );
    assert_eq!(final_message(LifecycleEvent::WorkDone), "rust-dwm-status: done.");
}
