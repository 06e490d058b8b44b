//! Per-player control records and the edge-trigger computation.
//!
//! A [`PlayerControl`] is one slot of the per-player input table that the
//! simulation reads every logical tick.  Its edge-triggered fields
//! (`*_just_pressed`, `just_moved`) are recomputed from the raw device state
//! on every real frame by [`apply_raw_input`]; they are never copied straight
//! from the device.

use vstd::prelude::*;

verus! {

/// How many slots the per-player input table holds.
pub const MAX_PLAYERS: usize = 4;

/// One player's control state for a logical tick.
///
/// The movement vector is carried as a pair of fixed-point axis values; the
/// simulation only ever asks whether it is non-zero, which
/// [`PlayerControl::is_moving`] answers.
#[derive(Clone, Copy, Debug, PartialEq, Eq, Structural)]
pub struct PlayerControl {
    pub move_x: i32,
    pub move_y: i32,
    pub just_moved: bool,
    pub jump_pressed: bool,
    pub jump_just_pressed: bool,
    pub grab_pressed: bool,
    pub grab_just_pressed: bool,
    pub shoot_pressed: bool,
    pub shoot_just_pressed: bool,
}

/// The raw action state read from the host's input devices for one frame.
#[derive(Clone, Copy, Debug, PartialEq, Eq, Structural)]
pub struct RawPlayerInput {
    pub jump: bool,
    pub grab: bool,
    pub shoot: bool,
    pub move_x: i32,
    pub move_y: i32,
}

/// A local-only editor command merged into slot 0 of a local session.
#[derive(Clone, Copy, Debug, PartialEq, Eq, Structural)]
pub struct EditorInput {
    pub command: u64,
}

/// One slot of the per-player input table.
#[derive(Clone, Copy, Debug)]
pub struct PlayerInput {
    /// Whether this slot takes part in the match.
    pub active: bool,
    /// Whether the simulation itself drives this slot; local input skips it.
    pub is_ai: bool,
    /// Which selectable character this slot picked.
    pub selected_player: u64,
    /// The control record the simulation reads.
    pub control: PlayerControl,
    /// A pending editor override, local sessions only.
    pub editor_input: Option<EditorInput>,
}

impl PlayerControl {
    /// Whether the movement vector is non-zero.
    pub open spec fn is_moving(self) -> bool {
        self.move_x != 0 || self.move_y != 0
    }

    /// The all-released control record.
    pub open spec fn zero_spec() -> PlayerControl {
        PlayerControl {
            move_x: 0,
            move_y: 0,
            just_moved: false,
            jump_pressed: false,
            jump_just_pressed: false,
            grab_pressed: false,
            grab_just_pressed: false,
            shoot_pressed: false,
            shoot_just_pressed: false,
        }
    }

    /// The all-released control record.
    pub fn zero() -> (r: PlayerControl)
        ensures
            r == PlayerControl::zero_spec(),
    {
        PlayerControl {
            move_x: 0,
            move_y: 0,
            just_moved: false,
            jump_pressed: false,
            jump_just_pressed: false,
            grab_pressed: false,
            grab_just_pressed: false,
            shoot_pressed: false,
            shoot_just_pressed: false,
        }
    }
}

impl PlayerInput {
    /// The record an empty slot starts with: inactive, not AI, all controls released.
    pub open spec fn initial_spec() -> PlayerInput {
        PlayerInput {
            active: false,
            is_ai: false,
            selected_player: 0,
            control: PlayerControl::zero_spec(),
            editor_input: None,
        }
    }

    /// The record an empty slot starts with.
    pub fn initial() -> (r: PlayerInput)
        ensures
            r == PlayerInput::initial_spec(),
    {
        PlayerInput {
            active: false,
            is_ai: false,
            selected_player: 0,
            control: PlayerControl::zero(),
            editor_input: None,
        }
    }
}

/// The control record produced when raw device state `raw` is read on top of
/// the previous frame's record `prev`: pressed levels are copied from the
/// device, and each edge field is true exactly when the level rises.
pub open spec fn control_after(prev: PlayerControl, raw: RawPlayerInput) -> PlayerControl {
    PlayerControl {
        move_x: raw.move_x,
        move_y: raw.move_y,
        just_moved: !prev.is_moving() && (raw.move_x != 0 || raw.move_y != 0),
        jump_pressed: raw.jump,
        jump_just_pressed: raw.jump && !prev.jump_pressed,
        grab_pressed: raw.grab,
        grab_just_pressed: raw.grab && !prev.grab_pressed,
        shoot_pressed: raw.shoot,
        shoot_just_pressed: raw.shoot && !prev.shoot_pressed,
    }
}

/// Recompute one control record from the raw device state of this frame.
pub fn apply_raw_input(prev: PlayerControl, raw: RawPlayerInput) -> (r: PlayerControl)
    ensures
        r == control_after(prev, raw),
{
    let was_moving = prev.move_x != 0 || prev.move_y != 0;
    let is_moving = raw.move_x != 0 || raw.move_y != 0;
    PlayerControl {
        move_x: raw.move_x,
        move_y: raw.move_y,
        just_moved: !was_moving && is_moving,
        jump_pressed: raw.jump,
        jump_just_pressed: raw.jump && !prev.jump_pressed,
        grab_pressed: raw.grab,
        grab_just_pressed: raw.grab && !prev.grab_pressed,
        shoot_pressed: raw.shoot,
        shoot_just_pressed: raw.shoot && !prev.shoot_pressed,
    }
}

/// The control record after a whole sequence of frames of raw input has been
/// applied, oldest first.
pub open spec fn control_after_seq(prev: PlayerControl, raws: Seq<RawPlayerInput>) -> PlayerControl
    decreases raws.len(),
{
    if raws.len() == 0 {
        prev
    } else {
        control_after(control_after_seq(prev, raws.drop_last()), raws.last())
    }
}

/// Edge-trigger correctness: when the jump button goes down and is then held,
/// `jump_just_pressed` is true exactly on the transition frame and false on
/// every later frame of the hold.
pub proof fn lemma_edge_trigger(prev: PlayerControl, raws: Seq<RawPlayerInput>)
    requires
        !prev.jump_pressed,
        raws.len() >= 1,
        forall|i: int| 0 <= i < raws.len() ==> #[trigger] raws[i].jump,
    ensures
        control_after_seq(prev, raws.take(1)).jump_just_pressed,
        forall|n: int|
            2 <= n <= raws.len() ==> !(#[trigger] control_after_seq(prev, raws.take(n)).jump_just_pressed),
    decreases raws.len(),
{
    assert(raws.take(1).drop_last() =~= Seq::<RawPlayerInput>::empty());
    assert(control_after_seq(prev, Seq::<RawPlayerInput>::empty()) == prev);
    assert(raws[0].jump);
    assert(raws.take(1).last() == raws[0]);
    assert forall|n: int| 2 <= n <= raws.len() implies !(#[trigger] control_after_seq(
        prev,
        raws.take(n),
    ).jump_just_pressed) by {
        lemma_held_button_stays_pressed(prev, raws, n - 1);
        assert(raws.take(n).drop_last() =~= raws.take(n - 1));
        assert(raws.take(n).last() == raws[n - 1]);
    }
}

/// While the jump button is held, the recorded `jump_pressed` level stays true
/// after every frame of the hold.
proof fn lemma_held_button_stays_pressed(prev: PlayerControl, raws: Seq<RawPlayerInput>, n: int)
    requires
        1 <= n <= raws.len(),
        forall|i: int| 0 <= i < raws.len() ==> #[trigger] raws[i].jump,
    ensures
        control_after_seq(prev, raws.take(n)).jump_pressed,
    decreases n,
{
    assert(raws.take(n).last() == raws[n - 1]);
}

} // verus!
