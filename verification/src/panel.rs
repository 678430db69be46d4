//! Button dispatcher: feeds each channel's raw sample into its debouncer,
//! classifies the edges according to the channel's polarity into pressed and
//! released buttons, and resolves one tick's buttons into a single playback
//! intent or a shutdown action.

use vstd::prelude::*;
use vstd::string::StringExecFns;
use crate::debounce::{Debouncer, Edge, spec_step, spec_edge};
use crate::supervisor::PlaybackCommand;

verus! {

/// Number of button channels on the panel.
pub const CHANNEL_COUNT: usize = 6;

/// The panel's buttons, in declaration order; the order breaks ties when
/// several buttons are pressed in the same tick.
#[derive(Clone, Copy, Debug, PartialEq, Eq, Structural)]
pub enum Button {
    /// Power switch: shuts the machine down.
    Aus,
    Tonabnehmer,
    Ukw,
    Kurz,
    Mittel,
    Lang,
}

/// The button bound to channel `i`, in declaration order.
pub open spec fn button_of(i: int) -> Button {
    if i == 0 {
        Button::Aus
    } else if i == 1 {
        Button::Tonabnehmer
    } else if i == 2 {
        Button::Ukw
    } else if i == 3 {
        Button::Kurz
    } else if i == 4 {
        Button::Mittel
    } else {
        Button::Lang
    }
}

/// Whether channel `i` reports with inverted polarity. Only the power switch
/// does: it is wired fail-safe, active-low-is-on, so a rising raw edge is a
/// logical release and a falling one a logical press.
pub open spec fn inverted(i: int) -> bool {
    i == 0
}

/// Whether an edge on a channel of the given polarity is a logical press.
pub open spec fn press_of_edge(e: Option<Edge>, inv: bool) -> bool {
    match e {
        Some(Edge::Rising) => !inv,
        Some(Edge::Falling) => inv,
        None => false,
    }
}

/// Whether an edge on a channel of the given polarity is a logical release.
pub open spec fn release_of_edge(e: Option<Edge>, inv: bool) -> bool {
    match e {
        Some(Edge::Rising) => inv,
        Some(Edge::Falling) => !inv,
        None => false,
    }
}

/// Whether channel `i`, in the given states and fed the given samples,
/// confirms a press this tick.
pub open spec fn press_at(chans: Seq<Debouncer>, samples: Seq<bool>, i: int) -> bool {
    press_of_edge(spec_edge(chans[i], samples[i]), inverted(i))
}

/// Whether channel `i`, in the given states and fed the given samples,
/// confirms a release this tick.
pub open spec fn release_at(chans: Seq<Debouncer>, samples: Seq<bool>, i: int) -> bool {
    release_of_edge(spec_edge(chans[i], samples[i]), inverted(i))
}

/// The buttons of the first `n` channels that confirm a press this tick, in
/// declaration order.
pub open spec fn pressed_upto(chans: Seq<Debouncer>, samples: Seq<bool>, n: int) -> Seq<Button>
    decreases n,
{
    if n <= 0 {
        Seq::empty()
    } else {
        pressed_upto(chans, samples, n - 1) + if press_at(chans, samples, n - 1) {
            seq![button_of(n - 1)]
        } else {
            Seq::empty()
        }
    }
}

/// The buttons of the first `n` channels that confirm a release this tick,
/// in declaration order.
pub open spec fn released_upto(chans: Seq<Debouncer>, samples: Seq<bool>, n: int) -> Seq<Button>
    decreases n,
{
    if n <= 0 {
        Seq::empty()
    } else {
        released_upto(chans, samples, n - 1) + if release_at(chans, samples, n - 1) {
            seq![button_of(n - 1)]
        } else {
            Seq::empty()
        }
    }
}

/// A debouncer for every button channel, in declaration order.
pub struct ButtonPanel {
    /// One debounce channel per button, indexed in declaration order.
    pub channels: Vec<Debouncer>,
}

impl ButtonPanel {
    /// One well-formed channel per button.
    pub open spec fn wf(self) -> bool {
        self.channels.len() == CHANNEL_COUNT && forall|i: int|
            0 <= i < CHANNEL_COUNT ==> self.channels[i].wf()
    }

    /// A fresh panel: every channel confirmed released with an empty
    /// history.
    pub fn new() -> (p: Self)
        ensures
            p.wf(),
            forall|i: int|
                0 <= i < CHANNEL_COUNT ==> p.channels[i] == (Debouncer {
                    confirmed: false,
                    streak: 0u8,
                }),
    {
        let mut channels: Vec<Debouncer> = Vec::new();
        let mut i: usize = 0;
        while i < CHANNEL_COUNT
            invariant
                channels.len() == i,
                i <= CHANNEL_COUNT,
                forall|j: int|
                    0 <= j < i ==> channels[j] == (Debouncer { confirmed: false, streak: 0u8 }),
            decreases CHANNEL_COUNT - i,
        {
            channels.push(Debouncer::new(false));
            i += 1;
        }
        ButtonPanel { channels }
    }

    /// Feed one raw sample per channel; collect the buttons whose press or
    /// release was confirmed this tick, each set in declaration order.
    pub fn update(&mut self, samples: &[bool; 6]) -> (r: (Vec<Button>, Vec<Button>))
        requires
            old(self).wf(),
        ensures
            final(self).wf(),
            forall|i: int|
                0 <= i < CHANNEL_COUNT ==> final(self).channels[i] == spec_step(
                    old(self).channels[i],
                    samples[i],
                ),
            r.0@ == pressed_upto(old(self).channels@, samples@, CHANNEL_COUNT as int),
            r.1@ == released_upto(old(self).channels@, samples@, CHANNEL_COUNT as int),
    {
        let ghost orig: Seq<Debouncer> = self.channels@;
        let mut pressed: Vec<Button> = Vec::new();
        let mut released: Vec<Button> = Vec::new();
        let mut i: usize = 0;
        while i < CHANNEL_COUNT
            invariant
                self.channels.len() == CHANNEL_COUNT,
                orig.len() == CHANNEL_COUNT,
                i <= CHANNEL_COUNT,
                forall|j: int| 0 <= j < CHANNEL_COUNT ==> orig[j].wf(),
                forall|j: int| i <= j < CHANNEL_COUNT ==> self.channels[j] == orig[j],
                forall|j: int|
                    0 <= j < i ==> self.channels[j] == spec_step(orig[j], samples[j]),
                pressed@ == pressed_upto(orig, samples@, i as int),
                released@ == released_upto(orig, samples@, i as int),
            decreases CHANNEL_COUNT - i,
    {
            let mut d = self.channels[i];
            proof {
                assert(self.channels[i as int] == orig[i as int]);
                assert(orig[i as int].wf());
            }
            let inv = i == 0;
            let edge = d.update(samples[i]);
            self.channels.set(i, d);
            let button = match i {
                0 => Button::Aus,
                1 => Button::Tonabnehmer,
                2 => Button::Ukw,
                3 => Button::Kurz,
                4 => Button::Mittel,
                _ => Button::Lang,
            };
            proof {
                assert(button == button_of(i as int));
            }
            match edge {
                Some(Edge::Rising) => {
                    if inv {
                        released.push(button);
                    } else {
                        pressed.push(button);
                    }
                },
                Some(Edge::Falling) => {
                    if inv {
                        pressed.push(button);
                    } else {
                        released.push(button);
                    }
                },
                None => {},
            }
            proof {
                assert(pressed@ =~= pressed_upto(orig, samples@, i as int + 1));
                assert(released@ =~= released_upto(orig, samples@, i as int + 1));
            }
            i += 1;
        }
        (pressed, released)
    }
}

/// The stream URL a button plays.
pub open spec fn spec_url(b: Button) -> Seq<char> {
    match b {
        Button::Aus => Seq::empty(),
        Button::Tonabnehmer => "http://stream.srg-ssr.ch/m/rsj/mp3_128"@,
        Button::Ukw => "http://stream.radioparadise.com/mellow-flac"@,
        Button::Kurz => "http://stream.radioparadise.com/eclectic-flac"@,
        Button::Mittel => "http://stream.radioparadise.com/rock-flac"@,
        Button::Lang => "http://streamingv2.shoutcast.com/100-PROGRESSIVEROCK"@,
    }
}

/// The stream URL a button plays; the power switch plays none.
pub fn stream_url(b: Button) -> (url: &'static str)
    requires
        b != Button::Aus,
    ensures
        url@ == spec_url(b),
{
    match b {
        Button::Aus => "",
        Button::Tonabnehmer => "http://stream.srg-ssr.ch/m/rsj/mp3_128",
        Button::Ukw => "http://stream.radioparadise.com/mellow-flac",
        Button::Kurz => "http://stream.radioparadise.com/eclectic-flac",
        Button::Mittel => "http://stream.radioparadise.com/rock-flac",
        Button::Lang => "http://streamingv2.shoutcast.com/100-PROGRESSIVEROCK",
    }
}

/// What one tick of the panel resolves to.
pub enum TickAction {
    /// No confirmed button activity this tick.
    Nothing,
    /// The power switch was pressed: shut the machine down, bypassing the
    /// playback channel.
    Shutdown,
    /// Hand this playback intent to the supervisor.
    Send(PlaybackCommand),
}

/// Resolve one tick's pressed and released buttons into a single action: the
/// first pressed button in declaration order wins; a release counts only
/// when no press supersedes it in the same tick.
pub fn resolve_tick(pressed: &Vec<Button>, released: &Vec<Button>) -> (action: TickAction)
    ensures
        pressed@.len() > 0 && pressed@[0] == Button::Aus ==> action == TickAction::Shutdown,
        pressed@.len() > 0 && pressed@[0] != Button::Aus ==> (action matches TickAction::Send(
            PlaybackCommand::PlayUrl(url),
        ) && url@ == spec_url(pressed@[0])),
        pressed@.len() == 0 && released@.len() > 0 ==> action == TickAction::Send(
            PlaybackCommand::Stop,
        ),
        pressed@.len() == 0 && released@.len() == 0 ==> action == TickAction::Nothing,
{
    if pressed.len() > 0 {
        let b = pressed[0];
        if b == Button::Aus {
            TickAction::Shutdown
        } else {
            TickAction::Send(PlaybackCommand::PlayUrl(String::from_str(stream_url(b))))
        }
    } else if released.len() > 0 {
        TickAction::Send(PlaybackCommand::Stop)
    } else {
        TickAction::Nothing
    }
}

} // verus!
