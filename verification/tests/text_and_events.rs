use danmu_terminal::commands::{ai_command, command_suggestions};
use danmu_terminal::delivery::PendingDelivery;
use danmu_terminal::domain::{DanmuEmote, DanmuEvent, DanmuEventKind, DanmuEventOrigin};
use danmu_terminal::events::{
    clean_platform_markup, display_events, event_marker, map_bili_emotes, map_event_emotes,
    reconcile_cross_origin_event, sanitize_input, visible_event_content,
};
use danmu_terminal::geometry::Rect;
use danmu_terminal::qr::{compact_qr_lines, qr_lines, qr_popup, QrPopup};
use danmu_terminal::segments::{assistant_segments, segment_message};
use unicode_segmentation::UnicodeSegmentation;
use unicode_width::UnicodeWidthStr;

const WALL: i64 = 1_700_000_000_000;

fn danmu(id: &str, content: &str) -> DanmuEvent {
    DanmuEvent::new(id, DanmuEventKind::Danmu, content, WALL)
}

#[test]
fn assistant_marker_reserves_grapheme_capacity_and_deduplicates_model_prefixes() {
    let body = "e\u{301}".repeat(39);
    let segments = assistant_segments(&format!("✦ ✦ {body}"));
    assert_eq!(
        segments,
        [
            format!("✦ {}", "e\u{301}".repeat(38)),
            "✦ e\u{301}".to_owned()
        ]
    );
    assert!(segments.iter().all(|segment| segment.graphemes(true).count() <= 40));
    assert_eq!(assistant_segments("✦"), ["✦"]);
}

#[test]
fn a_long_message_is_sent_in_pieces() {
    let pieces = segment_message(&"甲".repeat(95), 40);
    assert_eq!(pieces.len(), 3);
    assert_eq!(pieces.concat(), "甲".repeat(95));
    assert_eq!(pieces[2].graphemes(true).count(), 15);
}

#[test]
fn sanitizes_ime_format_characters() {
    assert_eq!(sanitize_input("你\u{200d}好\u{feff}".into()), "你好");
}

#[test]
fn maps_known_emotes_and_preserves_unknown_codes() {
    assert_eq!(map_bili_emotes("[dog] [未知]"), "🐶 [未知]");
}

#[test]
fn renders_scannable_qr_rows() {
    let rows = qr_lines("https://example.com/login").unwrap();
    assert!(rows.len() > 10);
    assert!(
        rows.iter()
            .any(|row| row.contains('█') || row.contains('▀') || row.contains('▄'))
    );
}

#[test]
fn tui_login_uses_a_smaller_qr_encoding_than_standalone_login() {
    let payload = "x".repeat(131);
    let compact = compact_qr_lines(&payload).unwrap();
    let standard = qr_lines(&payload).unwrap();
    let compact_width = compact
        .iter()
        .map(|row| UnicodeWidthStr::width(row.as_str()))
        .max()
        .unwrap();
    let standard_width = standard
        .iter()
        .map(|row| UnicodeWidthStr::width(row.as_str()))
        .max()
        .unwrap();

    assert!(compact_width <= 45, "{compact_width}");
    assert!(compact.len() <= 23, "{}", compact.len());
    assert!(compact_width < standard_width);
    assert!(compact.len() < standard.len());
}

#[test]
fn qr_overlay_degrades_instead_of_clipping_on_small_terminals() {
    let rows = qr_lines(&"x".repeat(131)).unwrap();
    let area = Rect { x: 0, y: 0, width: 44, height: 20 };
    assert!(matches!(qr_popup(&rows, area), QrPopup::TooSmall(_)));
    let wide = Rect { x: 0, y: 0, width: 200, height: 80 };
    assert!(matches!(qr_popup(&rows, wide), QrPopup::Code(_)));
}

#[test]
fn a_text_that_no_code_holds_is_refused() {
    assert!(qr_lines(&"x".repeat(9000)).is_err());
    assert!(compact_qr_lines(&"x".repeat(9000)).is_err());
}

#[test]
fn displays_oldest_event_at_top_and_newest_at_bottom() {
    let older = danmu("older", "旧消息");
    let newer = danmu("newer", "新消息");
    let events = vec![newer, older];
    let ids = display_events(&events)
        .into_iter()
        .map(|event| event.id.as_str())
        .collect::<Vec<_>>();
    assert_eq!(ids, ["older", "newer"]);
}

#[test]
fn viewer_reply_target_survives_history_reconciliation() {
    for target in ["另一位观众", "拾穗数据"] {
        let make = |history: bool| {
            let mut event = danmu(if history { "history" } else { "live" }, "这个问题怎么看？");
            event.username = Some("观众".into());
            event.author_id = Some("42".into());
            if history {
                event.origin = DanmuEventOrigin::History;
            } else {
                event.reply_to = Some(target.into());
            }
            event
        };
        let expected = format!("@{target} 这个问题怎么看？");
        assert_eq!(visible_event_content(&make(false)), expected);
        for history_first in [false, true] {
            let mut events = vec![make(history_first)];
            assert!(reconcile_cross_origin_event(&mut events, &make(!history_first)));
            assert_eq!(visible_event_content(&events[0]), expected);
            assert_eq!(events[0].content, "这个问题怎么看？");
        }
    }
}

#[test]
fn reply_metadata_does_not_drop_body_or_duplicate_text_mentions() {
    for (target, body, expected) in [
        (None, "普通弹幕", "普通弹幕"),
        (Some("观众"), "@观众 你好", "@观众 你好"),
        (Some("观众"), "@观众甲 你好", "@观众 @观众甲 你好"),
    ] {
        let mut event = danmu("event", body);
        event.username = Some("观众乙".into());
        event.reply_to = target.map(str::to_owned);
        assert_eq!(visible_event_content(&event), expected);
    }
}

#[test]
fn sent_message_accepts_masked_live_echo_and_restores_broadcaster_identity() {
    let pending = PendingDelivery::new("one", "我发的消息", "拾穗数据", "42", WALL);
    let mut event = danmu("echo", "我发的消息");
    event.timestamp = WALL + 1000;
    event.username = Some("拾***据".into());
    event.author_id = Some("0".into());

    assert!(pending.matches(&event));
    pending.canonicalize(&mut event);
    assert_eq!(event.username.as_deref(), Some("拾穗数据"));
    assert_eq!(event.author_id.as_deref(), Some("42"));
}

#[test]
fn canonical_history_reconciles_masked_live_event_without_a_duplicate() {
    let mut live = danmu("live", "同一条弹幕");
    live.username = Some("拾***据".into());
    live.author_id = Some("0".into());
    let mut events = vec![live];

    let mut history = danmu("history", "同一条弹幕");
    history.timestamp = WALL + 1000;
    history.username = Some("拾穗数据".into());
    history.author_id = Some("42".into());
    history.origin = DanmuEventOrigin::History;

    assert!(reconcile_cross_origin_event(&mut events, &history));
    assert_eq!(events.len(), 1);
    assert_eq!(events[0].username.as_deref(), Some("拾穗数据"));
    assert_eq!(events[0].author_id.as_deref(), Some("42"));
}

#[test]
fn official_custom_emote_metadata_is_visible_in_text_terminals() {
    let mut event = danmu("event", "你好[主播表情]");
    event.emotes.push(DanmuEmote {
        text: "[主播表情]".into(),
        fallback: "🙂".into(),
    });

    assert_eq!(map_event_emotes(&event), "你好🙂");
    assert_eq!(map_bili_emotes("[花] [委屈]"), "🌸 🥺");
}

#[test]
fn optional_ai_commands_stay_out_of_the_idle_palette() {
    let idle = command_suggestions("", false);
    assert!(idle.iter().any(|spec| spec.completion == "/settings"));
    assert!(idle.iter().any(|spec| spec.completion == "/diag"));
    assert!(!idle.iter().any(|spec| ai_command(spec)));

    let explicit = command_suggestions("/ai", false);
    assert!(explicit.iter().any(|spec| spec.completion == "/ai"));

    let active = command_suggestions("", true);
    assert!(active.iter().any(|spec| spec.completion == "/review"));
    assert!(!active.iter().any(|spec| spec.completion.contains(' ')));
    assert!(
        command_suggestions("模型", false)
            .iter()
            .any(|spec| spec.completion == "/ai model")
    );
    assert!(
        command_suggestions("静音", false)
            .iter()
            .any(|spec| spec.completion == "/mute")
    );
}

#[test]
fn platform_markup_and_markers() {
    assert_eq!(clean_platform_markup("<%战区超人%> 来了"), "战区超人 来了");
    assert_ne!(
        event_marker(DanmuEventKind::Danmu),
        event_marker(DanmuEventKind::Gift)
    );
}
