//! A strip of sixteen LEDs cut into four ranges, one per device.
use vstd::prelude::*;

use crate::controllers::DisplayState;
use crate::display::DisplayCommand;

verus! {

pub const NUM_LEDS: usize = 16;

#[derive(Clone, Copy, Debug, PartialEq, Eq, Structural)]
pub struct Rgb {
    pub r: u8,
    pub g: u8,
    pub b: u8,
}

pub open spec fn rgb(r: u8, g: u8, b: u8) -> Rgb {
    Rgb { r, g, b }
}

/// The colour that shows a device's state.
pub open spec fn state_color(state: DisplayState) -> Rgb {
    match state {
        DisplayState::HardOff => rgb(0, 0, 0),
        DisplayState::Error => rgb(1, 0, 0),
        DisplayState::Unknown => rgb(1, 0, 0),
        DisplayState::On => rgb(0, 1, 0),
        DisplayState::Off => rgb(0, 0, 1),
        DisplayState::OnOther => rgb(0, 1, 1),
    }
}

/// The first LED of the range that shows the device at position `id`.
pub open spec fn range_start(id: u32) -> Option<int> {
    if id == 0 {
        Some(2)
    } else if id == 1 {
        Some(6)
    } else if id == 2 {
        Some(14)
    } else if id == 3 {
        Some(10)
    } else {
        None
    }
}

/// LED `i` belongs to the range of position `id`: four LEDs from its start,
/// wrapping round the end of the strip.
pub open spec fn in_range(id: u32, i: int) -> bool {
    match range_start(id) {
        Some(start) => (i - start + 16) % 16 < 4,
        None => false,
    }
}

/// The frame that the strip shows while it is blanked.
pub open spec fn blank_frame() -> Seq<Rgb> {
    Seq::new(16, |i: int| rgb(0, 0, 0))
}

/// The frame that the strip starts with.
pub open spec fn start_frame() -> Seq<Rgb> {
    Seq::new(16, |i: int| rgb(1, 1, 1))
}

pub struct StripView {
    /// The colours of the devices, kept current while blanked.
    pub pixels: Seq<Rgb>,
    pub blank: bool,
}

/// The strip after one command, and the frame to write to the LEDs, if any.
pub open spec fn strip_step(s: StripView, cmd: DisplayCommand) -> (StripView, Option<Seq<Rgb>>) {
    match cmd {
        DisplayCommand::DisplayState(state, _icon, id, _name) => if range_start(id) is Some {
            let pixels = Seq::new(
                16,
                |i: int| if in_range(id, i) { state_color(state) } else { s.pixels[i] },
            );
            (StripView { pixels, blank: s.blank }, if s.blank { None } else { Some(pixels) })
        } else {
            (s, None)
        },
        DisplayCommand::BlankAll => (StripView { blank: true, ..s }, Some(blank_frame())),
        DisplayCommand::UnBlankAll => (StripView { blank: false, ..s }, Some(s.pixels)),
        _ => (s, None),
    }
}

/// The strip after a sequence of commands.
pub open spec fn run_strip(s: StripView, cmds: Seq<DisplayCommand>) -> StripView
    decreases cmds.len(),
{
    if cmds.len() == 0 {
        s
    } else {
        strip_step(run_strip(s, cmds.drop_last()), cmds.last()).0
    }
}

pub fn color_of_state(state: DisplayState) -> (r: Rgb)
    ensures
        r == state_color(state),
{
    match state {
        DisplayState::HardOff => Rgb { r: 0, g: 0, b: 0 },
        DisplayState::Error => Rgb { r: 1, g: 0, b: 0 },
        DisplayState::Unknown => Rgb { r: 1, g: 0, b: 0 },
        DisplayState::On => Rgb { r: 0, g: 1, b: 0 },
        DisplayState::Off => Rgb { r: 0, g: 0, b: 1 },
        DisplayState::OnOther => Rgb { r: 0, g: 1, b: 1 },
    }
}

fn filled(color: Rgb) -> (r: Vec<Rgb>)
    ensures
        r@ == Seq::new(16, |i: int| color),
{
    let mut r: Vec<Rgb> = Vec::new();
    let mut i: usize = 0;
    while i < NUM_LEDS
        invariant
            i <= NUM_LEDS,
            r@ == Seq::new(i as nat, |j: int| color),
        decreases NUM_LEDS - i,
    {
        r.push(color);
        i = i + 1;
        assert(r@ =~= Seq::new(i as nat, |j: int| color));
    }
    r
}

fn copy_frame(v: &Vec<Rgb>) -> (r: Vec<Rgb>)
    ensures
        r@ == v@,
{
    let mut r: Vec<Rgb> = Vec::new();
    let mut i: usize = 0;
    while i < v.len()
        invariant
            i <= v@.len(),
            r@ == v@.subrange(0, i as int),
        decreases v@.len() - i,
    {
        r.push(v[i]);
        i = i + 1;
        assert(r@ =~= v@.subrange(0, i as int));
    }
    assert(v@.subrange(0, v@.len() as int) =~= v@);
    r
}

/// The state of the strip's single consumer.
pub struct LedStrip {
    pixels: Vec<Rgb>,
    blank: bool,
}

impl View for LedStrip {
    type V = StripView;

    closed spec fn view(&self) -> StripView {
        StripView { pixels: self.pixels@, blank: self.blank }
    }
}

impl LedStrip {
    pub open spec fn wf(&self) -> bool {
        self@.pixels.len() == 16
    }

    /// A strip lit dimly white, not blanked.
    pub fn new() -> (r: LedStrip)
        ensures
            r.wf(),
            r@.pixels == start_frame(),
            !r@.blank,
    {
        LedStrip { pixels: filled(Rgb { r: 1, g: 1, b: 1 }), blank: false }
    }

    /// The frame to write when the strip starts.
    pub fn current_frame(&self) -> (r: Vec<Rgb>)
        ensures
            r@ == self@.pixels,
    {
        copy_frame(&self.pixels)
    }

    pub fn is_blank(&self) -> (r: bool)
        ensures
            r == self@.blank,
    {
        self.blank
    }

    /// Apply one command; returns the frame to write to the LEDs, if any.
    pub fn apply(&mut self, cmd: &DisplayCommand) -> (frame: Option<Vec<Rgb>>)
        requires
            old(self).wf(),
        ensures
            final(self).wf(),
            final(self)@ == strip_step(old(self)@, *cmd).0,
            match frame {
                Some(f) => strip_step(old(self)@, *cmd).1 == Some(f@),
                None => strip_step(old(self)@, *cmd).1 is None,
            },
    {
        match cmd {
            DisplayCommand::DisplayState(state, _icon, id, _name) => {
                let start: usize = if *id == 0 {
                    2
                } else if *id == 1 {
                    6
                } else if *id == 2 {
                    14
                } else if *id == 3 {
                    10
                } else {
                    return None;
                };
                let color = color_of_state(*state);
                let ghost before = self.pixels@;
                let mut k: usize = 0;
                while k < 4
                    invariant
                        k <= 4,
                        range_start(*id) == Some(start as int),
                        self.pixels@.len() == 16,
                        before.len() == 16,
                        self.blank == old(self).blank,
                        start == 2 || start == 6 || start == 10 || start == 14,
                        forall|i: int|
                            0 <= i < 16 ==> #[trigger] self.pixels@[i] == if (i - start + 16) % 16 < k {
                                color
                            } else {
                                before[i]
                            },
                    decreases 4 - k,
                {
                    let i = (start + k) % NUM_LEDS;
                    let ghost prev = self.pixels@;
                    self.pixels.set(i, color);
                    assert forall|j: int| 0 <= j < 16 implies #[trigger] self.pixels@[j] == if (j - start
                        + 16) % 16 < k + 1 {
                        color
                    } else {
                        before[j]
                    } by {
                        if j == i {
                            assert((j - start + 16) % 16 == k);
                        } else {
                            assert((j - start + 16) % 16 != k);
                            assert(self.pixels@[j] == prev[j]);
                        }
                    }
                    k = k + 1;
                }
                assert(self.pixels@ =~= strip_step(StripView { pixels: before, blank: self.blank }, *cmd).0.pixels);
                if self.blank {
                    None
                } else {
                    Some(copy_frame(&self.pixels))
                }
            },
            DisplayCommand::BlankAll => {
                self.blank = true;
                Some(filled(Rgb { r: 0, g: 0, b: 0 }))
            },
            DisplayCommand::UnBlankAll => {
                self.blank = false;
                Some(copy_frame(&self.pixels))
            },
            _ => None,
        }
    }
}

/// A command that changes no device's colours and does not end a blanked
/// interval.
pub open spec fn keeps_pixels(cmd: DisplayCommand) -> bool {
    match cmd {
        DisplayCommand::UnBlankAll => false,
        DisplayCommand::DisplayState(_state, _icon, id, _name) => range_start(id) is None,
        _ => true,
    }
}

proof fn lemma_blanked_stays(t: StripView, cmds: Seq<DisplayCommand>)
    requires
        t.blank,
        forall|i: int| 0 <= i < cmds.len() ==> keeps_pixels(#[trigger] cmds[i]),
    ensures
        run_strip(t, cmds) == t,
    decreases cmds.len(),
{
    if cmds.len() > 0 {
        lemma_blanked_stays(t, cmds.drop_last());
        assert(keeps_pixels(cmds[cmds.len() - 1]));
    }
}

/// Unblanking after a blank writes back exactly the colours that were shown
/// before the blank, when no device's colours changed in between.
pub proof fn lemma_unblank_restores(s: StripView, during: Seq<DisplayCommand>)
    requires
        forall|i: int| 0 <= i < during.len() ==> keeps_pixels(#[trigger] during[i]),
    ensures
        strip_step(run_strip(strip_step(s, DisplayCommand::BlankAll).0, during), DisplayCommand::UnBlankAll)
            == (StripView { pixels: s.pixels, blank: false }, Some(s.pixels)),
{
    lemma_blanked_stays(strip_step(s, DisplayCommand::BlankAll).0, during);
}

/// While blanked the strip keeps tracking every device update: after commands
/// that neither blank nor unblank, its colours are those it would have had
/// unblanked, and unblanking writes them.
pub proof fn lemma_blank_tracks_updates(s: StripView, cmds: Seq<DisplayCommand>)
    requires
        forall|i: int|
            0 <= i < cmds.len() ==> !(#[trigger] cmds[i] is BlankAll) && !(cmds[i] is UnBlankAll),
    ensures
        run_strip(StripView { blank: true, ..s }, cmds).pixels == run_strip(
            StripView { blank: false, ..s },
            cmds,
        ).pixels,
        run_strip(StripView { blank: true, ..s }, cmds).blank,
        strip_step(run_strip(StripView { blank: true, ..s }, cmds), DisplayCommand::UnBlankAll).1
            == Some(run_strip(StripView { blank: false, ..s }, cmds).pixels),
    decreases cmds.len(),
{
    if cmds.len() > 0 {
        lemma_blank_tracks_updates(s, cmds.drop_last());
        let c = cmds[cmds.len() - 1];
        assert(!(c is BlankAll) && !(c is UnBlankAll));
    }
}

} // verus!
