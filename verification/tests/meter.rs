use danmu_terminal::meter::{microphone_meter, MeterLine, MicrophoneLevel, MicrophoneState};
use unicode_width::UnicodeWidthStr;

fn display_width(line: &MeterLine) -> usize {
    line.spans
        .iter()
        .map(|span| UnicodeWidthStr::width(span.content.as_str()))
        .sum()
}

fn text(line: &MeterLine) -> String {
    line.spans.iter().map(|span| span.content.as_str()).collect()
}

#[test]
fn hides_when_the_input_header_is_too_narrow() {
    assert!(
        microphone_meter(MicrophoneState::Unmuted, Some(MicrophoneLevel { peak: -1200 }), 9)
            .is_none()
    );
}

#[test]
fn keeps_compact_and_full_meter_widths_exact() {
    for available in [10, 17, 18, 24, 30, 48] {
        let meter = microphone_meter(
            MicrophoneState::Unmuted,
            Some(MicrophoneLevel { peak: -1200 }),
            available,
        )
        .unwrap();
        assert_eq!(meter.width, available.min(24));
        assert_eq!(display_width(&meter), meter.width);
    }
}

#[test]
fn renders_a_static_muted_state() {
    let meter = microphone_meter(MicrophoneState::Muted, Some(MicrophoneLevel { peak: -300 }), 20)
        .unwrap();
    assert_eq!(text(&meter), " MIC MUTE ");
}

#[test]
fn a_louder_microphone_fills_more_of_the_meter() {
    let quiet = microphone_meter(
        MicrophoneState::Unmuted,
        Some(MicrophoneLevel { peak: -6000 }),
        24,
    )
    .unwrap();
    let loud = microphone_meter(
        MicrophoneState::Unmuted,
        Some(MicrophoneLevel { peak: 0 }),
        24,
    )
    .unwrap();
    assert_ne!(text(&quiet), text(&loud));
    assert_eq!(quiet.width, loud.width);
}
