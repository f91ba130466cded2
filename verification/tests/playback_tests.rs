use morsify::playback::morsify_plan;
use morsify::playback::plan_playback;
use morsify::playback::sequence_elements;
use morsify::playback::Event;
use morsify::translate::morsify_text;

fn count(events: &[Event], pred: impl Fn(&Event) -> bool) -> usize {
    events.iter().filter(|e| pred(e)).count()
}

#[test]
fn sos_issues_nine_tones_with_the_right_gaps() {
    let events = morsify_plan(&String::from("SOS")).unwrap();
    let tones = count(&events, |e| matches!(e, Event::Tone { .. }));
    let dots = count(&events, |e| matches!(e, Event::Tone { dash: false }));
    let dashes = count(&events, |e| matches!(e, Event::Tone { dash: true }));
    let element_gaps = count(&events, |e| matches!(e, Event::ElementGap));
    let letter_gaps = count(&events, |e| matches!(e, Event::LetterGap));
    let word_gaps = count(&events, |e| matches!(e, Event::WordGap));
    assert_eq!(tones, 9);
    assert_eq!(dots, 6);
    assert_eq!(dashes, 3);
    assert_eq!(element_gaps, 6, "two inter-element gaps per letter");
    assert_eq!(letter_gaps, 2, "two inter-letter gaps for three letters");
    assert_eq!(word_gaps, 0, "a single word has no word gap");
}

#[test]
fn sos_plan_event_by_event() {
    let events = morsify_plan(&String::from("SOS")).unwrap();
    let dot = Event::Tone { dash: false };
    let dash = Event::Tone { dash: true };
    let expected = vec![
        Event::Letter { ch: 'S' },
        dot,
        Event::ElementGap,
        dot,
        Event::ElementGap,
        dot,
        Event::LetterGap,
        Event::Letter { ch: 'O' },
        dash,
        Event::ElementGap,
        dash,
        Event::ElementGap,
        dash,
        Event::LetterGap,
        Event::Letter { ch: 'S' },
        dot,
        Event::ElementGap,
        dot,
        Event::ElementGap,
        dot,
    ];
    assert_eq!(events, expected);
}

#[test]
fn word_boundary_becomes_a_word_gap() {
    let events = morsify_plan(&String::from("A B")).unwrap();
    assert_eq!(count(&events, |e| matches!(e, Event::WordGap)), 1);
    assert_eq!(count(&events, |e| matches!(e, Event::LetterGap)), 1);
    assert_eq!(count(&events, |e| matches!(e, Event::Letter { .. })), 2);
    // A is .-  and B is -...
    assert_eq!(count(&events, |e| matches!(e, Event::Tone { .. })), 6);
}

#[test]
fn invalid_text_has_no_plan() {
    assert!(morsify_plan(&String::from("AB!")).is_err());
}

#[test]
fn empty_text_has_an_empty_plan() {
    assert_eq!(morsify_plan(&String::from("")).unwrap(), vec![]);
}

#[test]
fn planning_from_the_encoded_stream_matches_the_one_step_plan() {
    let input = String::from("HI THERE");
    let code = morsify_text(&input).unwrap();
    let direct = plan_playback(&input, &code);
    let one_step = morsify_plan(&input).unwrap();
    assert_eq!(direct, one_step);
}

#[test]
fn sequencer_puts_one_gap_between_elements() {
    let group = vec!['.', '-'];
    let events = sequence_elements(&group);
    assert_eq!(
        events,
        vec![
            Event::Tone { dash: false },
            Event::ElementGap,
            Event::Tone { dash: true },
        ]
    );
    assert_eq!(sequence_elements(&vec![]), vec![]);
    assert_eq!(sequence_elements(&vec!['-']), vec![Event::Tone { dash: true }]);
}

#[test]
fn event_durations_follow_the_timing_table() {
    assert_eq!(Event::Tone { dash: false }.duration_ms(), 50);
    assert_eq!(Event::Tone { dash: true }.duration_ms(), 150);
    assert_eq!(Event::ElementGap.duration_ms(), 50);
    assert_eq!(Event::LetterGap.duration_ms(), 150);
    assert_eq!(Event::WordGap.duration_ms(), 350);
    assert_eq!(Event::Letter { ch: 'A' }.duration_ms(), 0);
}
