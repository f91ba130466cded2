//! Playback planning: the element sequencer and the playback orchestrator.
//!
//! A playback run is a fixed sequence of events: announce a character, sound
//! a tone, or hold a silence of a given length. The orchestrator walks the
//! source text in lockstep with its encoded stream and lays that sequence
//! out; performing it — printing, synthesizing samples, sleeping, driving
//! the audio device — is the surrounding application's job.

use vstd::prelude::*;

use crate::translate::all_valid;
use crate::translate::code_of;
use crate::translate::encode_spec;
use crate::translate::lemma_code_no_space;
use crate::translate::morsify_text;
use crate::BASE_MS;
use crate::DASH_MS;
use crate::LETTER_GAP_MS;
use crate::WORD_GAP_MS;

verus! {

/// One step of a playback run.
#[derive(PartialEq, Eq, Structural, Clone, Copy, Debug)]
pub enum Event {
    /// Announce one source character before its tones are sounded; the
    /// narration prints the character together with its code group.
    Letter { ch: char },
    /// Sound the carrier for one element: one base unit for a dot, three
    /// for a dash.
    Tone { dash: bool },
    /// One base unit of silence between two elements of the same letter.
    ElementGap,
    /// Three base units of silence after a letter that is not the last
    /// character of the text.
    LetterGap,
    /// Seven base units of silence at a word boundary, announced as a blank
    /// narration line.
    WordGap,
}

impl Event {
    /// How long the step takes: the tone length for tones, the silence
    /// length for gaps, and zero for an announcement.
    pub open spec fn spec_duration_ms(self) -> u64 {
        match self {
            Event::Letter { .. } => 0,
            Event::Tone { dash } => if dash {
                DASH_MS
            } else {
                BASE_MS
            },
            Event::ElementGap => BASE_MS,
            Event::LetterGap => LETTER_GAP_MS,
            Event::WordGap => WORD_GAP_MS,
        }
    }

    /// How long the step takes, in milliseconds; mirrors
    /// `spec_duration_ms`.
    pub fn duration_ms(&self) -> (r: u64)
        ensures
            r == self.spec_duration_ms(),
    {
        match self {
            Event::Letter { .. } => 0,
            Event::Tone { dash } => if *dash {
                DASH_MS
            } else {
                BASE_MS
            },
            Event::ElementGap => BASE_MS,
            Event::LetterGap => LETTER_GAP_MS,
            Event::WordGap => WORD_GAP_MS,
        }
    }
}

/// The tone of one code element: a dash for `'-'`, a dot otherwise.
pub open spec fn tone_of(c: char) -> Event {
    Event::Tone { dash: c == '-' }
}

/// The tones of one code group, with one element gap between consecutive
/// elements and none after the last.
pub open spec fn tones_of(g: Seq<char>) -> Seq<Event>
    decreases g.len(),
{
    if g.len() == 0 {
        Seq::<Event>::empty()
    } else if g.len() == 1 {
        seq![tone_of(g[0])]
    } else {
        seq![tone_of(g[0]), Event::ElementGap] + tones_of(g.drop_first())
    }
}

/// The events of one announced character: the announcement, then its tones.
pub open spec fn letter_events(c: char) -> Seq<Event> {
    seq![Event::Letter { ch: c }] + tones_of(code_of(c))
}

/// The full plan of one playback run. A space becomes a word gap; any other
/// character becomes its announcement and tones, followed by a letter gap
/// unless it ends the text.
pub open spec fn plan_spec(s: Seq<char>) -> Seq<Event>
    decreases s.len(),
{
    if s.len() == 0 {
        Seq::<Event>::empty()
    } else {
        (if s[0] == ' ' {
            seq![Event::WordGap]
        } else if s.len() == 1 {
            letter_events(s[0])
        } else {
            letter_events(s[0]) + seq![Event::LetterGap]
        }) + plan_spec(s.drop_first())
    }
}

/// The element sequencer: turns one letter's code group into its tones,
/// with exactly one element gap between consecutive elements.
pub fn sequence_elements(group: &Vec<char>) -> (r: Vec<Event>)
    ensures
        r@ == tones_of(group@),
{
    let mut events: Vec<Event> = Vec::new();
    let mut j: usize = 0;
    proof {
        assert(group@.skip(0) =~= group@);
        assert(events@ + tones_of(group@) =~= tones_of(group@));
    }
    while j < group.len()
        invariant
            j <= group@.len(),
            events@ + tones_of(group@.skip(j as int)) == tones_of(group@),
        decreases group@.len() - j,
    {
        let ghost pre = events@;
        let ghost suffix = group@.skip(j as int);
        let c = group[j];
        events.push(Event::Tone { dash: c == '-' });
        if j + 1 < group.len() {
            events.push(Event::ElementGap);
        }
        proof {
            assert(suffix[0] == group@[j as int]);
            assert(suffix.drop_first() =~= group@.skip(j + 1));
            if j + 1 < group@.len() {
                assert(events@ =~= pre + seq![tone_of(suffix[0]), Event::ElementGap]);
                assert(events@ + tones_of(group@.skip(j + 1)) =~= pre + tones_of(suffix));
            } else {
                assert(tones_of(suffix) =~= seq![tone_of(suffix[0])]);
                assert(group@.skip(j + 1) =~= Seq::<char>::empty());
                assert(events@ + tones_of(group@.skip(j + 1)) =~= pre + tones_of(suffix));
            }
        }
        j = j + 1;
    }
    proof {
        assert(group@.skip(group@.len() as int) =~= Seq::<char>::empty());
        assert(events@ + tones_of(Seq::<char>::empty()) =~= events@);
    }
    events
}

/// The playback orchestrator's decisions: walks the source text in lockstep
/// with its encoded stream — the cursor skips one word-separator token per
/// space and one space-delimited code group per other character — and lays
/// out the exact event sequence of one playback run.
pub fn plan_playback(input: &String, code: &String) -> (r: Vec<Event>)
    requires
        code@ == encode_spec(input@),
    ensures
        r@ == plan_spec(input@),
{
    let input_str = input.as_str();
    let code_str = code.as_str();
    let n = input_str.unicode_len();
    let code_n = code_str.unicode_len();
    let mut events: Vec<Event> = Vec::new();
    let mut it: usize = 0;
    let mut k: usize = 0;
    proof {
        assert(input@.skip(0) =~= input@);
        assert(code@.skip(0) =~= code@);
        assert(events@ + plan_spec(input@) =~= plan_spec(input@));
    }
    while k < n
        invariant
            n == input@.len(),
            code_n == code@.len(),
            input_str@ == input@,
            code_str@ == code@,
            k <= n,
            it <= code_n,
            code@.skip(it as int) == encode_spec(input@.skip(k as int)),
            events@ + plan_spec(input@.skip(k as int)) == plan_spec(input@),
        decreases n - k,
    {
        let ghost pre = events@;
        let ghost it0 = it as int;
        let ghost suffix_in = input@.skip(k as int);
        let ghost rest_in = input@.skip(k + 1);
        let ghost e_rest = encode_spec(rest_in);
        let ch = input_str.get_char(k);
        proof {
            assert(suffix_in[0] == ch);
            assert(suffix_in.drop_first() =~= rest_in);
            assert(code@.skip(it0) == code_of(ch) + seq![' '] + e_rest);
        }
        if ch == ' ' {
            events.push(Event::WordGap);
            proof {
                assert(code_of(' ') =~= seq!['|']);
                assert(code@.skip(it0).len() == 2 + e_rest.len());
                assert forall|x: int| 0 <= x < e_rest.len() implies code@.skip(it0 + 2)[x]
                    == e_rest[x] by {
                    assert(code@.skip(it0 + 2)[x] == code@[it0 + 2 + x]);
                    assert(code@.skip(it0)[2 + x] == code@[it0 + 2 + x]);
                    assert((code_of(' ') + seq![' '] + e_rest)[2 + x] == e_rest[x]);
                }
                assert(code@.skip(it0 + 2) =~= e_rest);
                assert(plan_spec(suffix_in) == seq![Event::WordGap] + plan_spec(rest_in));
                assert(events@ + plan_spec(rest_in) =~= pre + plan_spec(suffix_in));
            }
            it = it + 2;
        } else {
            events.push(Event::Letter { ch });
            let ghost g = code_of(ch);
            proof {
                lemma_code_no_space(ch);
                assert(code@.skip(it0).len() == g.len() + 1 + e_rest.len());
                assert(code@.skip(it0)[0] == code@[it0]);
            }
            let mut group: Vec<char> = Vec::new();
            let mut j: usize = 0;
            let mut cc = code_str.get_char(it);
            proof {
                assert(group@ =~= g.take(0));
                assert((g + seq![' '] + e_rest)[0] == (if g.len() == 0 {
                    ' '
                } else {
                    g[0]
                }));
            }
            while cc != ' '
                invariant
                    code_str@ == code@,
                    code_n == code@.len(),
                    g == code_of(ch),
                    forall|i: int| 0 <= i < g.len() ==> g[i] != ' ',
                    code@.skip(it0) == g + seq![' '] + e_rest,
                    it0 == it,
                    it + g.len() + 1 <= code_n,
                    j <= g.len(),
                    group@ == g.take(j as int),
                    cc == code@[it0 + j],
                    j < g.len() ==> cc == g[j as int],
                    j == g.len() ==> cc == ' ',
                decreases g.len() - j,
            {
                group.push(cc);
                proof {
                    assert(group@ =~= g.take(j as int).push(g[j as int]));
                    assert(g.take(j + 1) =~= g.take(j as int).push(g[j as int]));
                }
                j = j + 1;
                cc = code_str.get_char(it + j);
                proof {
                    assert(code@.skip(it0)[j as int] == code@[it0 + j]);
                    assert((g + seq![' '] + e_rest)[j as int] == (if j < g.len() {
                        g[j as int]
                    } else {
                        ' '
                    }));
                }
            }
            proof {
                assert(j == g.len());
                assert(group@ =~= g);
            }
            let mut tones = sequence_elements(&group);
            events.append(&mut tones);
            if k + 1 < n {
                events.push(Event::LetterGap);
            }
            it = it + j + 1;
            proof {
                let it1 = it0 + g.len() + 1;
                assert forall|x: int| 0 <= x < e_rest.len() implies code@.skip(it1)[x]
                    == e_rest[x] by {
                    assert(code@.skip(it1)[x] == code@[it1 + x]);
                    assert(code@.skip(it0)[g.len() + 1 + x] == code@[it0 + g.len() + 1 + x]);
                    assert((g + seq![' '] + e_rest)[g.len() + 1 + x] == e_rest[x]);
                }
                assert(code@.skip(it1) =~= e_rest);
                assert(letter_events(ch) == seq![Event::Letter { ch }] + tones_of(g));
                if k + 1 < n {
                    assert(suffix_in.len() > 1);
                    assert(plan_spec(suffix_in) == letter_events(ch) + seq![Event::LetterGap]
                        + plan_spec(rest_in));
                    assert(events@ =~= pre + letter_events(ch) + seq![Event::LetterGap]);
                    assert(events@ + plan_spec(rest_in) =~= pre + plan_spec(suffix_in));
                } else {
                    assert(suffix_in.len() == 1);
                    assert(plan_spec(suffix_in) == letter_events(ch) + plan_spec(rest_in));
                    assert(events@ =~= pre + letter_events(ch));
                    assert(events@ + plan_spec(rest_in) =~= pre + plan_spec(suffix_in));
                }
            }
        }
        k = k + 1;
    }
    proof {
        assert(input@.skip(n as int) =~= Seq::<char>::empty());
        assert(events@ + plan_spec(Seq::<char>::empty()) =~= events@);
    }
    events
}

/// Translates a text and plans its playback in one step: the full event
/// sequence of one run, or an error exactly when the text contains a
/// character outside the valid set.
pub fn morsify_plan(input: &String) -> (r: Result<Vec<Event>, ()>)
    ensures
        r is Ok <==> all_valid(input@),
        r is Ok ==> r.unwrap()@ == plan_spec(input@),
{
    match morsify_text(input) {
        Ok(code) => Ok(plan_playback(input, &code)),
        Err(_) => Err(()),
    }
}

} // verus!
