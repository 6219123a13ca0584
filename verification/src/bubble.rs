//! A single animated bubble: a circle that grows by a fixed amount per tick
//! until it exceeds its maximum radius, then stops for good.

use vstd::prelude::*;

verus! {

/// A 24-bit color, one channel per component.
#[derive(Clone, Copy, Debug, PartialEq, Eq, Structural)]
pub enum Color {
    Rgb(u8, u8, u8),
}

/// A circle in canvas coordinates; positions and the radius are measured in
/// terminal cells.
#[derive(Clone, Copy, Debug, PartialEq, Eq, Structural)]
pub struct Circle {
    pub x: u64,
    pub y: u64,
    pub radius: u64,
    pub color: Color,
}

/// The two-state lifecycle of a bubble: it animates, then it is done.
#[derive(Clone, Copy, Debug, PartialEq, Eq, Structural)]
pub enum BubbleState {
    Animating,
    Finished,
}

/// One in-flight animation: the current circle, how fast it grows per tick,
/// the radius past which it finishes, and its lifecycle state.
#[derive(Clone, Copy, Debug, PartialEq, Eq, Structural)]
pub struct Bubble {
    pub state: BubbleState,
    pub circle: Circle,
    pub size_max: u64,
    pub speed: u64,
}

impl Bubble {
    /// A bubble is well formed when one more growth step cannot overflow and,
    /// while it is still animating, its radius has not yet passed the maximum.
    /// The second conjunct is what makes `Finished` permanent: a radius beyond
    /// `size_max` can only be seen on a finished bubble.
    pub open spec fn wf(self) -> bool {
        &&& self.size_max + self.speed <= u64::MAX
        &&& self.state is Animating ==> self.circle.radius <= self.size_max
    }

    /// Whether the lifecycle has reached its terminal state.
    pub open spec fn spec_finished(self) -> bool {
        self.state is Finished
    }

    /// What one tick does to a bubble: a finished bubble is left untouched;
    /// an animating one grows by `speed` and finishes as soon as the new
    /// radius exceeds `size_max`.
    pub open spec fn advanced(self) -> Bubble
        recommends
            self.wf(),
    {
        if self.spec_finished() {
            self
        } else {
            let grown = (self.circle.radius + self.speed) as u64;
            Bubble {
                state: if grown > self.size_max {
                    BubbleState::Finished
                } else {
                    BubbleState::Animating
                },
                circle: Circle {
                    x: self.circle.x,
                    y: self.circle.y,
                    radius: grown,
                    color: self.circle.color,
                },
                size_max: self.size_max,
                speed: self.speed,
            }
        }
    }

    pub fn new(x: u64, y: u64, color: Color, min_size: u64, max_size: u64, speed: u64) -> (b: Bubble)
        requires
            min_size <= max_size,
            max_size + speed <= u64::MAX,
        ensures
            b.wf(),
            b.state is Animating,
            b.circle == (Circle { x, y, radius: min_size, color }),
            b.size_max == max_size,
            b.speed == speed,
    {
        let circle = Circle { x, y, radius: min_size, color };
        Bubble { circle, state: BubbleState::Animating, size_max: max_size, speed }
    }

    pub fn finished(&self) -> (r: bool)
        ensures
            r == self.spec_finished(),
    {
        match self.state {
            BubbleState::Finished => true,
            _ => false,
        }
    }

    /// Advance the animation by one tick and hand back the circle to paint,
    /// if any.  A finished bubble yields nothing and does not change; an
    /// animating one grows once and yields its new circle, also on the very
    /// tick that finishes it, so the last size is still painted.
    pub fn tick_and_return_circle(&mut self) -> (r: Option<Circle>)
        requires
            old(self).wf(),
        ensures
            final(self).wf(),
            *final(self) == old(self).advanced(),
            r == (if old(self).spec_finished() {
                None::<Circle>
            } else {
                Some(old(self).advanced().circle)
            }),
            final(self).circle.radius >= old(self).circle.radius,
            old(self).spec_finished() ==> *final(self) == *old(self),
    {
        if self.finished() {
            return None;
        }

        let new_radius = self.circle.radius + self.speed;
        let new_circle = Circle {
            x: self.circle.x,
            y: self.circle.y,
            radius: new_radius,
            color: self.circle.color,
        };

        if new_circle.radius > self.size_max {
            self.state = BubbleState::Finished;
        }

        self.circle = new_circle;
        Some(self.circle)
    }
}

/// The bubble after `n` ticks.
pub open spec fn advanced_n(b: Bubble, n: nat) -> Bubble
    decreases n,
{
    if n == 0 {
        b
    } else {
        advanced_n(b, (n - 1) as nat).advanced()
    }
}

/// Law: while a bubble that started at radius 0 is within its lifetime, its
/// radius after `k` ticks is exactly `k * speed`, and it has finished
/// precisely when that radius has passed the maximum.
pub proof fn lemma_bubble_lifetime(b: Bubble, k: nat)
    requires
        b.wf(),
        b.state is Animating,
        b.circle.radius == 0,
        0 < b.speed,
        k * b.speed <= b.size_max + b.speed,
    ensures
        advanced_n(b, k).circle.radius == k * b.speed,
        advanced_n(b, k).spec_finished() <==> k * b.speed > b.size_max,
        advanced_n(b, k).speed == b.speed,
        advanced_n(b, k).size_max == b.size_max,
        advanced_n(b, k).circle.x == b.circle.x,
        advanced_n(b, k).circle.y == b.circle.y,
        advanced_n(b, k).circle.color == b.circle.color,
    decreases k,
{
    if k == 0 {
        assert(k * b.speed == 0) by (nonlinear_arith)
            requires
                k == 0,
        ;
    } else {
        assert((k - 1) * b.speed == k * b.speed - b.speed) by (nonlinear_arith);
        lemma_bubble_lifetime(b, (k - 1) as nat);
    }
}

/// Law: bounded lifetime — a bubble that starts at radius 0 with positive
/// speed finishes exactly on tick `size_max / speed + 1` (floor division):
/// one tick earlier it is still animating.
pub proof fn lemma_bubble_finish_tick(b: Bubble)
    requires
        b.wf(),
        b.state is Animating,
        b.circle.radius == 0,
        0 < b.speed,
    ensures
        advanced_n(b, (b.size_max / b.speed + 1) as nat).spec_finished(),
        !advanced_n(b, (b.size_max / b.speed) as nat).spec_finished(),
{
    let s = b.speed as int;
    let m = b.size_max as int;
    vstd::arithmetic::div_mod::lemma_fundamental_div_mod(m, s);
    vstd::arithmetic::div_mod::lemma_mod_bound(m, s);
    assert((m / s + 1) * s == (m / s) * s + s) by (nonlinear_arith);
    lemma_bubble_lifetime(b, (b.size_max / b.speed + 1) as nat);
    lemma_bubble_lifetime(b, (b.size_max / b.speed) as nat);
}

/// Law: across any run of ticks the radius never decreases, and `Finished`
/// is absorbing — once a bubble has finished, further ticks change no field.
pub proof fn lemma_bubble_monotone(b: Bubble, m: nat, n: nat)
    requires
        b.wf(),
        m <= n,
    ensures
        advanced_n(b, n).wf(),
        advanced_n(b, m).circle.radius <= advanced_n(b, n).circle.radius,
        advanced_n(b, m).spec_finished() ==> advanced_n(b, n) == advanced_n(b, m),
    decreases n,
{
    if n > 0 {
        if m == n {
            lemma_bubble_monotone(b, (n - 1) as nat, (n - 1) as nat);
        } else {
            lemma_bubble_monotone(b, m, (n - 1) as nat);
        }
    }
}

} // verus!
