use danmu_terminal::activity::{ActivityNotices, MIN_READ_TIME};
use danmu_terminal::domain::{DanmuEvent, DanmuEventKind, DanmuEventOrigin};
use unicode_width::UnicodeWidthStr;

const NOW: u64 = 1_000_000;
const WALL: i64 = 1_700_000_000_000;

fn event(kind: DanmuEventKind, name: &str, id: Option<&str>, at: i64) -> DanmuEvent {
    let mut event = DanmuEvent::new("event", kind, &format!("{name} 的原始互动"), at);
    event.username = Some(name.into());
    event.author_id = id.map(str::to_owned);
    event
}

fn text(notices: &mut ActivityNotices, now: u64, width: usize, names: bool) -> Option<String> {
    notices.advance(now);
    notices.render(width, names, now).map(|(_, text)| text)
}

#[test]
fn keeps_names_readable_then_replaces_them_with_the_next_batch() {
    let mut notices = ActivityNotices::new();
    notices.push(&event(DanmuEventKind::Enter, "张三", Some("1"), WALL), NOW, WALL);
    let first = text(&mut notices, NOW, 80, true).unwrap();
    for (millis, name, id) in [(400, "李四", "2"), (800, "王五", "3")] {
        let at = WALL + millis;
        notices.push(
            &event(DanmuEventKind::Enter, name, Some(id), at),
            NOW + millis as u64,
            at,
        );
    }
    assert_eq!(text(&mut notices, NOW + 1999, 80, true).unwrap(), first);
    let next = text(&mut notices, NOW + 2000, 80, true).unwrap();
    assert!(next.contains("李四、王五"));
    assert!(!next.contains("张三"));
    assert!(text(&mut notices, NOW + 6999, 80, true).is_some());
    assert!(text(&mut notices, NOW + 7000, 80, true).is_none());
    assert!(text(&mut notices, NOW + 20000, 80, true).is_none());
}

#[test]
fn deduplicates_only_reliable_ids_and_preserves_same_named_viewers() {
    for ids in [
        [Some("a"), Some("a")],
        [Some("a"), Some("b")],
        [Some("0"), Some("0")],
        [None, None],
    ] {
        let mut notices = ActivityNotices::new();
        notices.push(&event(DanmuEventKind::Like, "上一批", Some("seed"), WALL), NOW, WALL);
        for id in ids {
            notices.push(&event(DanmuEventKind::Like, "同名观众", id, WALL), NOW, WALL);
        }
        let rendered = text(&mut notices, NOW + MIN_READ_TIME, 80, true).unwrap();
        let expected = if ids == [Some("a"), Some("a")] { 1 } else { 2 };
        assert_eq!(rendered.matches("同名观众").count(), expected, "{rendered}");
        assert!(!rendered.contains("等"));
    }
}

#[test]
fn burst_prioritizes_welcomes_with_optional_likes_and_never_builds_a_replay_queue() {
    let mut notices = ActivityNotices::new();
    notices.push(&event(DanmuEventKind::Like, "首位", Some("seed"), WALL), NOW, WALL);
    for index in 0..1000 {
        let kind = if index % 2 == 0 {
            DanmuEventKind::Enter
        } else {
            DanmuEventKind::Like
        };
        notices.push(
            &event(kind, &format!("观众{index}"), Some(&index.to_string()), WALL),
            NOW,
            WALL,
        );
    }
    let first = text(&mut notices, NOW + 1999, 120, true).unwrap();
    assert!(first.contains("首位"));
    let wide = text(&mut notices, NOW + MIN_READ_TIME, 120, true).unwrap();
    assert!(wide.contains("观众0、观众2、观众4等"), "{wide}");
    assert!(wide.contains("观众1、观众3、观众5等"), "{wide}");
    assert!(!wide.contains("首位"));
    let narrow = text(&mut notices, NOW + MIN_READ_TIME, 28, true).unwrap();
    assert!(narrow.contains("进入直播间"));
    assert!(!narrow.contains("点赞"));
    let expired_likes = text(&mut notices, NOW + 5000, 120, true).unwrap();
    assert!(expired_likes.contains("进入直播间"));
    assert!(!expired_likes.contains("点赞"));
    assert!(text(&mut notices, NOW + 7000, 120, true).is_none());
}

#[test]
fn likes_do_not_displace_a_welcome_and_stale_pending_names_are_not_revived() {
    let mut notices = ActivityNotices::new();
    notices.push(&event(DanmuEventKind::Enter, "正在欢迎", Some("1"), WALL), NOW, WALL);
    notices.push(&event(DanmuEventKind::Like, "先点赞", Some("2"), WALL), NOW, WALL);
    let at_two = text(&mut notices, NOW + MIN_READ_TIME, 120, true).unwrap();
    assert!(at_two.contains("正在欢迎"));
    assert!(at_two.contains("先点赞"));
    let at = WALL + 2100;
    notices.push(&event(DanmuEventKind::Like, "已过期", Some("3"), at), NOW + 2100, at);
    let at = WALL + 4000;
    notices.push(&event(DanmuEventKind::Enter, "新欢迎", Some("4"), at), NOW + 4000, at);
    let welcome = text(&mut notices, NOW + 4000, 20, true).unwrap();
    assert!(welcome.contains("新欢迎"));
    assert!(!welcome.contains("点赞"));
    assert!(text(&mut notices, NOW + 9000, 120, true).is_none());

    let mut stale = ActivityNotices::new();
    stale.push(&event(DanmuEventKind::Enter, "欢迎", Some("1"), WALL), NOW, WALL);
    stale.push(&event(DanmuEventKind::Like, "旧名字", Some("2"), WALL), NOW, WALL);
    let at = WALL + 4000;
    stale.push(&event(DanmuEventKind::Like, "新名字", Some("3"), at), NOW + 4000, at);
    let rendered = text(&mut stale, NOW + 5000, 120, true).unwrap();
    assert!(rendered.contains("新名字"));
    assert!(!rendered.contains("旧名字"));
}

#[test]
fn fits_complete_names_before_truncation_and_respects_name_privacy() {
    let mut notices = ActivityNotices::new();
    notices.push(&event(DanmuEventKind::Enter, "首位", Some("seed"), WALL), NOW, WALL);
    for name in ["张三", "李四", "王五"] {
        notices.push(&event(DanmuEventKind::Enter, name, None, WALL), NOW, WALL);
    }
    let at = NOW + MIN_READ_TIME;
    let width = UnicodeWidthStr::width("张三、李四等 进入直播间");
    let fitted = text(&mut notices, at, width, true).unwrap();
    assert!(fitted.contains("张三、李四等"));
    assert!(!fitted.contains("王五"));
    assert!(!fitted.contains('…'));
    let hidden = text(&mut notices, at, 100, false).unwrap();
    for name in ["首位", "张三", "李四", "王五"] {
        assert!(!hidden.contains(name));
    }

    let mut long = ActivityNotices::new();
    long.push(
        &event(DanmuEventKind::Enter, "这是一个很长很长的观众昵称", Some("long"), WALL),
        NOW,
        WALL,
    );
    let shortened = text(&mut long, NOW, 20, true).unwrap();
    assert!(shortened.contains('…'));
    assert!(shortened.ends_with("进入直播间"));
    for width in [0, 1, 8, 20] {
        assert!(
            UnicodeWidthStr::width(text(&mut long, NOW, width, true).unwrap().as_str()) <= width
        );
    }
}

#[test]
fn single_notifications_expire_and_history_or_late_events_do_not_restart_them() {
    for (kind, seconds) in [(DanmuEventKind::Enter, 5), (DanmuEventKind::Like, 3)] {
        let mut notices = ActivityNotices::new();
        let mut incoming = event(kind, "观众", Some("1"), WALL);
        notices.push(&incoming, NOW, WALL);
        assert!(text(&mut notices, NOW + seconds * 1000 - 1, 80, true).is_some());
        assert!(text(&mut notices, NOW + seconds * 1000, 80, true).is_none());
        notices.push(&incoming, NOW + 10000, WALL + 10000);
        assert!(text(&mut notices, NOW + 10000, 80, true).is_none());
        incoming.origin = DanmuEventOrigin::History;
        notices.push(&incoming, NOW, WALL);
        assert!(text(&mut notices, NOW, 80, true).is_none());
    }
}

#[test]
fn one_name_is_shown_whole() {
    let mut notices = ActivityNotices::new();
    notices.push(&event(DanmuEventKind::Enter, "张三", Some("1"), WALL), NOW, WALL);
    let (kind, text) = notices.render(80, true, NOW).unwrap();
    assert_eq!(kind, DanmuEventKind::Enter);
    assert_eq!(text, "张三 进入直播间");
    let (_, hidden) = notices.render(80, false, NOW).unwrap();
    assert!(hidden.ends_with("进入直播间"));
}
