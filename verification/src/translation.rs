//! Translation state: the 2-component offset that input events drive.
//!
//! Components are exact fixed-point numbers: a component with numerator `n`
//! stands for the offset `n / TRANSLATION_SCALE`. The scale 300 is the least
//! common multiple of the two divisors the input rules use (150 pixels per
//! unit for pointer presses, steps of 1/10 of a unit for arrow keys), so
//! every reachable state is represented without rounding.

use vstd::prelude::*;
use vstd::wrapping::i64_specs;

verus! {

/// Common denominator of both translation components.
pub const TRANSLATION_SCALE: i64 = 300;

/// Numerator change of one arrow-key press: 1/10 of a unit.
pub const KEY_STEP: i64 = 30;

/// Pixels per unit of normalized device space for pointer presses.
pub const POINTER_DIVISOR: i64 = 150;

/// The 2-component offset vector, as numerators over `TRANSLATION_SCALE`.
#[derive(Clone, Copy, PartialEq, Eq, Structural, Debug)]
pub struct Translation {
    pub x: i64,
    pub y: i64,
}

/// The four key identifiers the input controller recognizes.
#[derive(Clone, Copy, PartialEq, Eq, Structural, Debug)]
pub enum ArrowKey {
    Up,
    Down,
    Left,
    Right,
}

/// Which arrow key, if any, a key identifier names.
pub open spec fn spec_parse_key(key: Seq<char>) -> Option<ArrowKey> {
    if key == "ArrowUp"@ {
        Option::Some(ArrowKey::Up)
    } else if key == "ArrowDown"@ {
        Option::Some(ArrowKey::Down)
    } else if key == "ArrowLeft"@ {
        Option::Some(ArrowKey::Left)
    } else if key == "ArrowRight"@ {
        Option::Some(ArrowKey::Right)
    } else {
        Option::None
    }
}

/// Decide which arrow key a key identifier names; every other identifier
/// is reported as `None` and treated as a no-op by the caller.
pub fn parse_key(key: &str) -> (r: Option<ArrowKey>)
    ensures
        r == spec_parse_key(key@),
{
    let k: String = key.to_owned();
    if k == "ArrowUp".to_owned() {
        Option::Some(ArrowKey::Up)
    } else if k == "ArrowDown".to_owned() {
        Option::Some(ArrowKey::Down)
    } else if k == "ArrowLeft".to_owned() {
        Option::Some(ArrowKey::Left)
    } else if k == "ArrowRight".to_owned() {
        Option::Some(ArrowKey::Right)
    } else {
        Option::None
    }
}

/// Where a pointer press at surface-local pixel (px, py) puts the offset:
/// the absolute value (-px / 150, py / 150), i.e. numerators (-2 px, 2 py)
/// over the shared scale 300.
pub open spec fn spec_pointer_target(px: i32, py: i32) -> Translation {
    Translation { x: (-2 * px as int) as i64, y: (2 * py as int) as i64 }
}

/// How one recognized arrow key moves the offset: one `KEY_STEP` along the
/// matching axis, with two's-complement wrap-around at the numerator bounds.
pub open spec fn spec_arrow_update(t: Translation, k: ArrowKey) -> Translation {
    match k {
        ArrowKey::Up => Translation { x: t.x, y: i64_specs::wrapping_sub(t.y, KEY_STEP) },
        ArrowKey::Down => Translation { x: t.x, y: i64_specs::wrapping_add(t.y, KEY_STEP) },
        ArrowKey::Left => Translation { x: i64_specs::wrapping_add(t.x, KEY_STEP), y: t.y },
        ArrowKey::Right => Translation { x: i64_specs::wrapping_sub(t.x, KEY_STEP), y: t.y },
    }
}

/// How a key-press event with the given identifier moves the offset:
/// unrecognized identifiers leave it unchanged.
pub open spec fn spec_key_update(t: Translation, key: Seq<char>) -> Translation {
    match spec_parse_key(key) {
        Option::Some(k) => spec_arrow_update(t, k),
        Option::None => t,
    }
}

impl Translation {
    /// The offset every application instance starts from.
    pub open spec fn spec_initial() -> Translation {
        Translation { x: 0, y: 0 }
    }

    /// Construct the initial offset (0, 0).
    pub fn initial() -> (t: Translation)
        ensures
            t == Translation::spec_initial(),
    {
        Translation { x: 0, y: 0 }
    }

    /// Recenter the offset from a pointer press at pixel (px, py).
    pub fn set_from_pointer(&mut self, px: i32, py: i32)
        ensures
            *final(self) == spec_pointer_target(px, py),
    {
        let bx: i64 = px as i64;
        let by: i64 = py as i64;
        self.x = -(bx + bx);
        self.y = by + by;
    }

    /// Move the offset one step along the axis of a recognized arrow key.
    pub fn apply_arrow(&mut self, k: ArrowKey)
        ensures
            *final(self) == spec_arrow_update(*old(self), k),
    {
        match k {
            ArrowKey::Up => {
                self.y = self.y.wrapping_sub(KEY_STEP);
            },
            ArrowKey::Down => {
                self.y = self.y.wrapping_add(KEY_STEP);
            },
            ArrowKey::Left => {
                self.x = self.x.wrapping_add(KEY_STEP);
            },
            ArrowKey::Right => {
                self.x = self.x.wrapping_sub(KEY_STEP);
            },
        }
    }

    /// Apply a key-press event: recognized arrows move the offset, every
    /// other identifier leaves it unchanged.
    pub fn apply_key(&mut self, key: &str)
        ensures
            *final(self) == spec_key_update(*old(self), key@),
    {
        match parse_key(key) {
            Option::Some(k) => self.apply_arrow(k),
            Option::None => {},
        }
    }
}

/// The fixed-point encoding matches the input rules exactly: a pointer
/// press at pixel (px, py) stands for the offset (-px / 150, py / 150)
/// with no rounding, and one key step stands for exactly one tenth of a
/// unit.
pub proof fn lemma_scales_exact(px: i32, py: i32)
    ensures
        spec_pointer_target(px, py).x * POINTER_DIVISOR == -px * TRANSLATION_SCALE,
        spec_pointer_target(px, py).y * POINTER_DIVISOR == py * TRANSLATION_SCALE,
        KEY_STEP * 10 == TRANSLATION_SCALE,
{
}

/// Opposite arrow keys cancel: pressing up then down restores the offset
/// that was current before the pair, and left then right likewise, from
/// any starting state.
pub proof fn lemma_arrow_pairs_cancel(t: Translation)
    ensures
        spec_key_update(spec_key_update(t, "ArrowUp"@), "ArrowDown"@) == t,
        spec_key_update(spec_key_update(t, "ArrowLeft"@), "ArrowRight"@) == t,
{
    reveal_strlit("ArrowUp");
    reveal_strlit("ArrowDown");
    reveal_strlit("ArrowLeft");
    reveal_strlit("ArrowRight");
    assert("ArrowUp"@.len() == 7);
    assert("ArrowDown"@.len() == 9);
    assert("ArrowLeft"@.len() == 9);
    assert("ArrowRight"@.len() == 10);
    assert("ArrowDown"@[5] == 'D');
    assert("ArrowLeft"@[5] == 'L');
    assert(spec_parse_key("ArrowUp"@) == Option::Some(ArrowKey::Up));
    assert(spec_parse_key("ArrowDown"@) == Option::Some(ArrowKey::Down));
    assert(spec_parse_key("ArrowLeft"@) == Option::Some(ArrowKey::Left));
    assert(spec_parse_key("ArrowRight"@) == Option::Some(ArrowKey::Right));
    lemma_key_step_cancels(t.x);
    lemma_key_step_cancels(t.y);
}

/// Moving a numerator one `KEY_STEP` in one direction and then one in the
/// other restores it, including across the wrap-around at the bounds.
proof fn lemma_key_step_cancels(v: i64)
    ensures
        i64_specs::wrapping_add(i64_specs::wrapping_sub(v, KEY_STEP), KEY_STEP) == v,
        i64_specs::wrapping_sub(i64_specs::wrapping_add(v, KEY_STEP), KEY_STEP) == v,
{
}

/// A key-press event with an unrecognized identifier leaves the offset
/// exactly as it was.
pub proof fn lemma_unrecognized_key_is_noop(t: Translation, key: Seq<char>)
    requires
        spec_parse_key(key) is None,
    ensures
        spec_key_update(t, key) == t,
{
}

} // verus!
