//! The shared model: the live bubbles, the keyboard layout, the derived
//! screen geometry and the run state, together with the two operations the
//! engine's loops perform on it — applying one event, and advancing one
//! render frame.

use vstd::prelude::*;
use vstd::arithmetic::div_mod::{lemma_fundamental_div_mod, lemma_mod_bound};
use rand::Rng;

use crate::bubble::{Bubble, Circle, Color};
use crate::layout::{
    spec_position_of, spec_max_row, spec_max_col, spec_rows_keys, qwerty_rows, KeyboardLayout,
    lemma_position_in_extent,
};

verus! {

/// One event the input loop can apply to the model.
#[derive(Clone, Copy, Debug, PartialEq, Eq, Structural)]
pub enum Message {
    KeyPressed(char),
    Quit,
}

/// Whether the engine keeps accepting events or is shutting down.
#[derive(Clone, Copy, Debug, PartialEq, Eq, Structural)]
pub enum RunningState {
    Running,
    Quitting,
}

/// The one piece of shared mutable state: mutated by the input loop through
/// `update` and by the render loop through `render_tick`, never by both at
/// once.
pub struct Model {
    pub state: RunningState,
    pub bubbles: Vec<Bubble>,
    pub min_bubble_size: u64,
    pub max_bubble_size: u64,
    pub speed: u64,
    pub keys_layout: KeyboardLayout,
    pub terminal_size: (u16, u16),
    pub button_size: (u16, u16),
    pub keyboard_height: u16,
    pub empty_space_height: u16,
}

/// Decide what a key press means: a control-Q or control-C chord asks the
/// program to quit — checked before any layout lookup — and every other
/// press is a plain key-press event.
pub open spec fn spec_message_for_key(ch: char, control: bool) -> Message {
    if control && (ch == 'q' || ch == 'c') {
        Message::Quit
    } else {
        Message::KeyPressed(ch)
    }
}

pub fn message_for_key(ch: char, control: bool) -> (m: Message)
    ensures
        m == spec_message_for_key(ch, control),
{
    if control && (ch == 'q' || ch == 'c') {
        Message::Quit
    } else {
        Message::KeyPressed(ch)
    }
}

/// All the bubbles after one tick each, in place.
pub open spec fn ticked_bubbles(s: Seq<Bubble>) -> Seq<Bubble>
    decreases s.len(),
{
    if s.len() == 0 {
        Seq::empty()
    } else {
        ticked_bubbles(s.drop_last()).push(s.last().advanced())
    }
}

/// The bubbles that are not finished, in order.
pub open spec fn live_bubbles(s: Seq<Bubble>) -> Seq<Bubble>
    decreases s.len(),
{
    if s.len() == 0 {
        Seq::empty()
    } else {
        let rest = live_bubbles(s.drop_last());
        if s.last().spec_finished() {
            rest
        } else {
            rest.push(s.last())
        }
    }
}

/// The circles one frame paints: every bubble that was still animating when
/// the frame began contributes its circle as of after this frame's tick —
/// also a bubble whose tick just finished it, which is painted one last time.
pub open spec fn sampled_circles(s: Seq<Bubble>) -> Seq<Circle>
    decreases s.len(),
{
    if s.len() == 0 {
        Seq::empty()
    } else {
        let rest = sampled_circles(s.drop_last());
        if s.last().spec_finished() {
            rest
        } else {
            rest.push(s.last().advanced().circle)
        }
    }
}

/// How many of the bubbles are still animating.
pub open spec fn spec_live_count(s: Seq<Bubble>) -> nat
    decreases s.len(),
{
    if s.len() == 0 {
        0
    } else {
        spec_live_count(s.drop_last()) + if s.last().spec_finished() {
            0nat
        } else {
            1nat
        }
    }
}

/// Law: a render tick paints every bubble that was alive when the frame
/// began — the batch holds exactly one circle per animating bubble, so no
/// press applied before the frame is silently dropped.
pub proof fn lemma_frame_paints_every_live_bubble(s: Seq<Bubble>)
    ensures
        sampled_circles(s).len() == spec_live_count(s),
    decreases s.len(),
{
    if s.len() > 0 {
        lemma_frame_paints_every_live_bubble(s.drop_last());
    }
}

/// The configuration and geometry of `b` equal those of `a`: only the run
/// state and the bubble collection ever change after construction.
pub open spec fn same_config(a: Model, b: Model) -> bool {
    &&& b.min_bubble_size == a.min_bubble_size
    &&& b.max_bubble_size == a.max_bubble_size
    &&& b.speed == a.speed
    &&& b.keys_layout == a.keys_layout
    &&& b.terminal_size == a.terminal_size
    &&& b.button_size == a.button_size
    &&& b.keyboard_height == a.keyboard_height
    &&& b.empty_space_height == a.empty_space_height
}

/// The bubble a key press at grid cell `pos` spawns, up to its color, which
/// is drawn at random per press: the radius starts at the minimum size and
/// the center sits in the middle of the key's button.
pub open spec fn spawned_bubble_matches(m: Model, pos: (u16, u16), b: Bubble) -> bool {
    &&& b.state is Animating
    &&& b.circle.radius == m.min_bubble_size
    &&& b.circle.x == pos.1 * m.button_size.0 + m.button_size.0 / 2
    &&& b.circle.y == pos.0 * m.button_size.1 + m.button_size.1 / 2
    &&& b.size_max == m.max_bubble_size
    &&& b.speed == m.speed
}

/// What applying one event leaves of the model: `Quit` switches the run
/// state to `Quitting` — idempotently — and touches nothing else; a key
/// press spawns exactly one bubble when the key is mapped, and is a silent
/// no-op when it is not.
pub open spec fn update_ok(pre: Model, message: Message, post: Model) -> bool {
    &&& same_config(pre, post)
    &&& match message {
        Message::Quit => post.state is Quitting && post.bubbles == pre.bubbles,
        Message::KeyPressed(key) => {
            &&& post.state == pre.state
            &&& match spec_position_of(pre.keys_layout@, key) {
                None => post.bubbles == pre.bubbles,
                Some(pos) => {
                    &&& post.bubbles@.len() == pre.bubbles@.len() + 1
                    &&& post.bubbles@.drop_last() == pre.bubbles@
                    &&& spawned_bubble_matches(pre, pos, post.bubbles@.last())
                },
            }
        },
    }
}

/// The band a count of buttons occupies never exceeds the space it was cut
/// from: `c * (w / c) <= w`.
proof fn lemma_extent_times_button_le(w: int, c: int)
    requires
        0 <= w,
        1 <= c,
    ensures
        c * (w / c) <= w,
{
    lemma_fundamental_div_mod(w, c);
    lemma_mod_bound(w, c);
}

impl Model {
    pub open spec fn spec_rows(self) -> int {
        spec_max_row(self.keys_layout@) + 1
    }

    pub open spec fn spec_cols(self) -> int {
        spec_max_col(self.keys_layout@) + 1
    }

    /// Well-formedness: the geometry is the one derived from the terminal
    /// size and the layout's extent, sizes leave room for one growth step,
    /// and every live bubble is itself well formed.
    pub open spec fn wf(self) -> bool {
        &&& self.keys_layout.wf()
        &&& self.keys_layout@.len() > 0
        &&& self.min_bubble_size <= self.max_bubble_size
        &&& self.max_bubble_size + self.speed <= u64::MAX
        &&& self.button_size.0 == self.terminal_size.0 as int / self.spec_cols()
        &&& self.button_size.1 == self.terminal_size.1 as int / self.spec_rows()
        &&& self.keyboard_height == self.spec_rows() * self.button_size.1
        &&& self.empty_space_height == self.terminal_size.1 - self.keyboard_height
        &&& forall|i: int| 0 <= i < self.bubbles@.len() ==> (#[trigger] self.bubbles@[i]).wf()
    }

    /// Build the model for the fixed QWERTY layout, from the terminal size
    /// and the two configuration scalars.
    pub fn new(terminal_size: (u16, u16), max_size: u64, speed: u64) -> (m: Model)
        requires
            max_size + speed <= u64::MAX,
        ensures
            m.wf(),
            m.state is Running,
            m.bubbles@.len() == 0,
            m.keys_layout@ == spec_rows_keys(qwerty_rows()),
            m.min_bubble_size == 0,
            m.max_bubble_size == max_size,
            m.speed == speed,
            m.terminal_size == terminal_size,
    {
        let keys_layout = KeyboardLayout::create_keyboard_layout();
        Self::with_layout(keys_layout, terminal_size, max_size, speed)
    }

    /// Build the model for a given layout; the geometry is computed here,
    /// once, and never recomputed on resize.
    pub fn with_layout(
        keys_layout: KeyboardLayout,
        terminal_size: (u16, u16),
        max_size: u64,
        speed: u64,
    ) -> (m: Model)
        requires
            keys_layout.wf(),
            keys_layout@.len() > 0,
            max_size + speed <= u64::MAX,
        ensures
            m.wf(),
            m.state is Running,
            m.bubbles@.len() == 0,
            m.keys_layout == keys_layout,
            m.min_bubble_size == 0,
            m.max_bubble_size == max_size,
            m.speed == speed,
            m.terminal_size == terminal_size,
    {
        let button_size = Self::calculate_button_size(&keys_layout, terminal_size);
        proof {
            lemma_extent_times_button_le(
                terminal_size.1 as int,
                spec_max_row(keys_layout@) + 1,
            );
        }
        let keyboard_height = Self::calculate_keyboard_height(&keys_layout, button_size);
        let empty_space_height = terminal_size.1 - keyboard_height;
        Model {
            state: RunningState::Running,
            bubbles: Vec::new(),
            min_bubble_size: 0,
            max_bubble_size: max_size,
            speed,
            keys_layout,
            terminal_size,
            button_size,
            keyboard_height,
            empty_space_height,
        }
    }

    /// Button width and height: the terminal size divided by the layout's
    /// extent, floor division — with a single key the button occupies the
    /// whole terminal.
    pub fn calculate_button_size(keys_layout: &KeyboardLayout, terminal_size: (u16, u16)) -> (bs: (
        u16,
        u16,
    ))
        requires
            keys_layout.wf(),
            keys_layout@.len() > 0,
        ensures
            bs.0 == terminal_size.0 as int / (spec_max_col(keys_layout@) + 1),
            bs.1 == terminal_size.1 as int / (spec_max_row(keys_layout@) + 1),
    {
        let rows = keys_layout.row_count();
        let columns = keys_layout.column_count();
        let height = terminal_size.1 / rows;
        let width = terminal_size.0 / columns;
        (width, height)
    }

    /// The keyboard band's height: the row count times the button height.
    pub fn calculate_keyboard_height(keys_layout: &KeyboardLayout, button_size: (u16, u16)) -> (kh:
        u16)
        requires
            keys_layout.wf(),
            keys_layout@.len() > 0,
            (spec_max_row(keys_layout@) + 1) * button_size.1 <= u16::MAX,
        ensures
            kh == (spec_max_row(keys_layout@) + 1) * button_size.1,
    {
        let rows = keys_layout.row_count();
        rows * button_size.1
    }

    /// Apply one event.  Never fails: unknown keys are silent no-ops and
    /// `Quit` is idempotent.
    pub fn update(&mut self, message: Message)
        requires
            old(self).wf(),
        ensures
            final(self).wf(),
            update_ok(*old(self), message, *final(self)),
    {
        match message {
            Message::KeyPressed(key) => {
                self.add_circle(key);
            },
            Message::Quit => {
                self.state = RunningState::Quitting;
            },
        }
    }

    /// Whether the run state has switched to `Quitting`; the input loop
    /// checks this before blocking for the next key event.
    pub fn is_quitting(&self) -> (r: bool)
        ensures
            r == (self.state is Quitting),
    {
        matches!(self.state, RunningState::Quitting)
    }

    fn add_circle(&mut self, key_code: char)
        requires
            old(self).wf(),
        ensures
            final(self).wf(),
            update_ok(*old(self), Message::KeyPressed(key_code), *final(self)),
    {
        if let Some(new_bubble) = self.create_bubble(key_code) {
            self.bubbles.push(new_bubble);
            proof {
                assert(final(self).bubbles@.drop_last() =~= old(self).bubbles@);
            }
        }
    }

    fn create_bubble(&self, key_code: char) -> (r: Option<Bubble>)
        requires
            self.wf(),
        ensures
            r is Some <==> spec_position_of(self.keys_layout@, key_code) is Some,
            r is Some ==> spawned_bubble_matches(
                *self,
                spec_position_of(self.keys_layout@, key_code)->Some_0,
                r->Some_0,
            ),
            r is Some ==> r->Some_0.wf(),
    {
        match self.get_position(key_code) {
            None => None,
            Some((x, y)) => {
                let color = self.get_color();
                Some(
                    Bubble::new(
                        x,
                        y,
                        color,
                        self.min_bubble_size,
                        self.max_bubble_size,
                        self.speed,
                    ),
                )
            },
        }
    }

    /// The canvas position of a key's bubble: the center of the key's
    /// button, `x = column * button_width + button_width / 2` and
    /// `y = row * button_height + button_height / 2`.
    fn get_position(&self, key_code: char) -> (r: Option<(u64, u64)>)
        requires
            self.wf(),
        ensures
            r is Some <==> spec_position_of(self.keys_layout@, key_code) is Some,
            r is Some ==> ({
                let pos = spec_position_of(self.keys_layout@, key_code)->Some_0;
                r->Some_0.0 == pos.1 * self.button_size.0 + self.button_size.0 / 2
                    && r->Some_0.1 == pos.0 * self.button_size.1 + self.button_size.1 / 2
            }),
    {
        match self.keys_layout.position_of(key_code) {
            None => None,
            Some((row, column)) => {
                proof {
                    lemma_position_in_extent(self.keys_layout@, key_code);
                    lemma_extent_times_button_le(
                        self.terminal_size.0 as int,
                        spec_max_col(self.keys_layout@) + 1,
                    );
                    lemma_extent_times_button_le(
                        self.terminal_size.1 as int,
                        spec_max_row(self.keys_layout@) + 1,
                    );
                    let c = column as int;
                    let rw = row as int;
                    let bw = self.button_size.0 as int;
                    let bh = self.button_size.1 as int;
                    let cols = spec_max_col(self.keys_layout@) + 1;
                    let rows = spec_max_row(self.keys_layout@) + 1;
                    assert(c * bw + bw <= cols * bw) by (nonlinear_arith)
                        requires
                            c + 1 <= cols,
                            0 <= bw,
                            0 <= c,
                    ;
                    assert(rw * bh + bh <= rows * bh) by (nonlinear_arith)
                        requires
                            rw + 1 <= rows,
                            0 <= bh,
                            0 <= rw,
                    ;
                }
                let x = column * self.button_size.0 + self.button_size.0 / 2;
                let y = row * self.button_size.1 + self.button_size.1 / 2;
                Some((x as u64, y as u64))
            },
        }
    }

    /// A color for a new bubble: uniform random RGB, drawn fresh per call so
    /// repeated presses of one key visibly differ.
    fn get_color(&self) -> Color {
        let r = random_u8();
        let g = random_u8();
        let b = random_u8();
        Color::Rgb(r, g, b)
    }

    /// One render frame's worth of state change: advance every bubble by one
    /// tick, collect the circles to paint, and then discard the bubbles that
    /// are now finished, so that memory stays bounded while the batch still
    /// holds each finishing bubble's last circle.
    #[verifier::loop_isolation(false)]
    pub fn render_tick(&mut self) -> (circles: Vec<Circle>)
        requires
            old(self).wf(),
        ensures
            final(self).wf(),
            same_config(*old(self), *final(self)),
            final(self).state == old(self).state,
            circles@ == sampled_circles(old(self).bubbles@),
            final(self).bubbles@ == live_bubbles(ticked_bubbles(old(self).bubbles@)),
    {
        let ghost orig = self.bubbles@;
        let mut circles: Vec<Circle> = Vec::new();
        let mut ticked: Vec<Bubble> = Vec::new();
        let mut i: usize = 0;
        while i < self.bubbles.len()
            invariant
                i <= orig.len(),
                ticked@ == ticked_bubbles(orig.take(i as int)),
                circles@ == sampled_circles(orig.take(i as int)),
                forall|t: int| 0 <= t < ticked@.len() ==> (#[trigger] ticked@[t]).wf(),
            decreases orig.len() - i,
        {
            let mut b = self.bubbles[i];
            let sampled = b.tick_and_return_circle();
            ticked.push(b);
            if let Some(circle) = sampled {
                circles.push(circle);
            }
            proof {
                assert(orig.take(i + 1).drop_last() =~= orig.take(i as int));
            }
            i += 1;
        }
        proof {
            assert(orig.take(orig.len() as int) =~= orig);
        }
        self.bubbles = ticked;
        self.clean_finished_bubbles();
        circles
    }

    /// Drop every finished bubble from the collection, keeping the rest in
    /// order.
    #[verifier::loop_isolation(false)]
    fn clean_finished_bubbles(&mut self)
        requires
            old(self).wf(),
        ensures
            final(self).wf(),
            same_config(*old(self), *final(self)),
            final(self).state == old(self).state,
            final(self).bubbles@ == live_bubbles(old(self).bubbles@),
    {
        let ghost orig = self.bubbles@;
        let mut kept: Vec<Bubble> = Vec::new();
        let mut i: usize = 0;
        while i < self.bubbles.len()
            invariant
                i <= orig.len(),
                kept@ == live_bubbles(orig.take(i as int)),
                forall|t: int| 0 <= t < kept@.len() ==> (#[trigger] kept@[t]).wf(),
            decreases orig.len() - i,
        {
            let b = self.bubbles[i];
            if !b.finished() {
                kept.push(b);
            }
            proof {
                assert(orig.take(i + 1).drop_last() =~= orig.take(i as int));
            }
            i += 1;
        }
        proof {
            assert(orig.take(orig.len() as int) =~= orig);
        }
        self.bubbles = kept;
    }
}

/// Relies on `rand::rng` and `rand::Rng::random`: one byte from the seeded
/// thread-local generator.  Nothing is promised of the value; callers treat
/// it as arbitrary.
#[verifier::external_body]
fn random_u8() -> u8 {
    rand::rng().random()
}

/// Law: `Quit` is idempotent — applying it to a model that is already
/// quitting leaves the run state `Quitting` and the bubbles untouched.
pub proof fn lemma_quit_idempotent(m0: Model, m1: Model, m2: Model)
    requires
        update_ok(m0, Message::Quit, m1),
        update_ok(m1, Message::Quit, m2),
    ensures
        m1.state is Quitting,
        m2.state is Quitting,
        m2.bubbles == m0.bubbles,
        same_config(m0, m2),
{
}

/// Law: a key press for a key the layout does not map changes nothing — not
/// the bubbles, not the run state, not the configuration.
pub proof fn lemma_unmapped_key_noop(m0: Model, key: char, m1: Model)
    requires
        update_ok(m0, Message::KeyPressed(key), m1),
        spec_position_of(m0.keys_layout@, key) is None,
    ensures
        m1.bubbles == m0.bubbles,
        m1.state == m0.state,
        same_config(m0, m1),
{
}

/// Law: geometry invariant — the keyboard band is exactly the row count
/// times the button height, the columns' buttons fit in the terminal width,
/// and the band fits in the terminal height, whatever the terminal size.
pub proof fn lemma_geometry_invariant(m: Model)
    requires
        m.wf(),
    ensures
        m.keyboard_height == (spec_max_row(m.keys_layout@) + 1) * m.button_size.1,
        (spec_max_col(m.keys_layout@) + 1) * m.button_size.0 <= m.terminal_size.0,
        m.keyboard_height <= m.terminal_size.1,
        m.empty_space_height == m.terminal_size.1 - m.keyboard_height,
{
    lemma_extent_times_button_le(m.terminal_size.0 as int, m.spec_cols());
    lemma_extent_times_button_le(m.terminal_size.1 as int, m.spec_rows());
}

} // verus!
