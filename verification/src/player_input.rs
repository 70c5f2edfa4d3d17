//! How the player's keys turn into movement input, and which queued input
//! the controller applies.

use vstd::prelude::*;

use crate::resources::AppState;

verus! {

/// The movement keys held in a frame.
#[derive(Debug, Clone, Copy, PartialEq, Eq, Structural)]
pub struct PlayerKeys {
    pub forward: bool,
    pub backward: bool,
    pub left: bool,
    pub right: bool,
    pub up: bool,
    pub down: bool,
    pub jump: bool,
    pub walk: bool,
}

/// Speed while the walk key is held.
pub const WALK_SPEED: i32 = 2;

/// Speed otherwise.
pub const RUN_SPEED: i32 = 6;

/// The movement a frame's keys ask for, in units per second along the
/// player's forward and right directions, and the vertical direction.
#[derive(Debug, Clone, Copy, PartialEq, Eq, Structural)]
pub struct PlayerMove {
    pub forward: i32,
    pub right: i32,
    pub up: i32,
    pub jump: bool,
}

/// +1 when only `pos` is held, -1 when only `neg` is, 0 otherwise.
pub open spec fn direction(pos: bool, neg: bool) -> int {
    (if pos { 1int } else { 0int }) - (if neg { 1int } else { 0int })
}

/// A direction scaled by the walking or running speed.
pub open spec fn at_speed(d: int, walk: bool) -> int {
    if walk {
        d * WALK_SPEED
    } else {
        d * RUN_SPEED
    }
}

fn axis(pos: bool, neg: bool) -> (res: i32)
    ensures
        res == direction(pos, neg),
{
    let mut v: i32 = 0;
    if pos {
        v = v + 1;
    }
    if neg {
        v = v - 1;
    }
    v
}

/// The movement input of a frame: forward and sideways movement at walking
/// or running speed, vertical movement at unit speed, and the jump key.
pub fn player_move(keys: &PlayerKeys) -> (res: PlayerMove)
    ensures
        res.forward == at_speed(direction(keys.forward, keys.backward), keys.walk),
        res.right == at_speed(direction(keys.right, keys.left), keys.walk),
        res.up == direction(keys.up, keys.down),
        res.jump == keys.jump,
{
    let speed = if keys.walk { WALK_SPEED } else { RUN_SPEED };
    PlayerMove {
        forward: axis(keys.forward, keys.backward) * speed,
        right: axis(keys.right, keys.left) * speed,
        up: axis(keys.up, keys.down),
        jump: keys.jump,
    }
}

/// Numbers the player's inputs in the order they are queued.
#[derive(Debug, Clone, Copy, PartialEq, Eq, Structural)]
pub struct InputSerial {
    pub next_serial: u32,
}

impl InputSerial {
    /// Hands out the next serial number.
    pub fn take(&mut self) -> (res: u32)
        requires
            old(self).next_serial < u32::MAX,
        ensures
            res == old(self).next_serial,
            final(self).next_serial == old(self).next_serial + 1,
    {
        let s = self.next_serial;
        self.next_serial = self.next_serial + 1;
        s
    }
}

/// Opposite keys cancel out, and a direction never exceeds the running
/// speed.
pub proof fn lemma_opposite_keys_cancel(keys: PlayerKeys)
    ensures
        keys.forward == keys.backward ==> player_forward(keys) == 0,
        -RUN_SPEED <= player_forward(keys) <= RUN_SPEED,
{
}

pub open spec fn player_forward(keys: PlayerKeys) -> int {
    at_speed(direction(keys.forward, keys.backward), keys.walk)
}

/// One frame's input as queued for the controller: its serial number, the
/// movement the keys ask for, and the look data `L` of the mouse.
#[derive(Debug, Clone, Copy, PartialEq, Eq)]
pub struct QueuedInput<L> {
    pub serial: u32,
    pub movement: PlayerMove,
    pub look: L,
}

/// Whether a frame's input is taken: always in the game, in the editor only
/// while the walk key is held.
pub open spec fn input_taken(state: AppState, keys: PlayerKeys) -> bool {
    state != AppState::Editor || keys.walk
}

/// Reads one frame's input. When it is taken, it is queued with the next
/// serial number, which is then counted up; otherwise the queue and the
/// serial numbers stay as they were.
pub fn take_frame_input<L>(
    state: AppState,
    keys: &PlayerKeys,
    look: L,
    serial: &mut InputSerial,
    queue: &mut Vec<QueuedInput<L>>,
)
    requires
        input_taken(state, *keys) ==> old(serial).next_serial < u32::MAX,
    ensures
        input_taken(state, *keys) ==> {
            &&& final(queue)@.len() == old(queue)@.len() + 1
            &&& final(queue)@.drop_last() == old(queue)@
            &&& final(queue)@.last().serial == old(serial).next_serial
            &&& final(queue)@.last().movement == spec_player_move(*keys)
            &&& final(queue)@.last().look == look
            &&& final(serial).next_serial == old(serial).next_serial + 1
        },
        !input_taken(state, *keys) ==> final(queue)@ == old(queue)@ && *final(serial) == *old(serial),
{
    if !state.player_input_enabled(keys.walk) {
        return;
    }
    let movement = player_move(keys);
    let s = serial.take();
    queue.push(QueuedInput { serial: s, movement, look });
    proof {
        assert(queue@.drop_last() =~= old(queue)@);
    }
}

/// The movement a frame's keys ask for.
pub open spec fn spec_player_move(keys: PlayerKeys) -> PlayerMove {
    PlayerMove {
        forward: at_speed(direction(keys.forward, keys.backward), keys.walk) as i32,
        right: at_speed(direction(keys.right, keys.left), keys.walk) as i32,
        up: direction(keys.up, keys.down) as i32,
        jump: keys.jump,
    }
}

/// The input the controller applies in a frame, if any: only the newest
/// queued input counts (the older ones are dropped), and it is applied only
/// when its serial number is larger than that of the last applied one.
pub open spec fn spec_applied<L>(queue: Seq<QueuedInput<L>>, last_applied: Option<u32>) -> Option<
    QueuedInput<L>,
> {
    if queue.len() == 0 {
        None
    } else if last_applied matches Some(s) && s >= queue.last().serial {
        None
    } else {
        Some(queue.last())
    }
}

/// Takes the frame's input off the queue, which it leaves empty, and
/// returns it when it is to be applied, noting its serial number as the
/// last one applied.
pub fn select_input<L>(queue: &mut Vec<QueuedInput<L>>, last_applied: &mut Option<u32>) -> (res: Option<
    QueuedInput<L>,
>)
    ensures
        final(queue)@.len() == 0,
        res == spec_applied(old(queue)@, *old(last_applied)),
        *final(last_applied) == match res {
            Some(input) => Some(input.serial),
            None => *old(last_applied),
        },
{
    let newest = queue.pop();
    queue.clear();
    match newest {
        None => None,
        Some(input) => {
            let stale = match *last_applied {
                Some(s) => s >= input.serial,
                None => false,
            };
            if stale {
                None
            } else {
                *last_applied = Some(input.serial);
                Some(input)
            }
        },
    }
}

/// Inputs are applied in increasing serial order: after an input is
/// applied, none with the same or a smaller serial number is applied again.
pub proof fn lemma_applied_serials_increase<L>(
    queue: Seq<QueuedInput<L>>,
    later: Seq<QueuedInput<L>>,
    last_applied: Option<u32>,
)
    requires
        spec_applied(queue, last_applied) is Some,
        later.len() > 0,
        later.last().serial <= spec_applied(queue, last_applied)->0.serial,
    ensures
        spec_applied(later, Some(spec_applied(queue, last_applied)->0.serial)) is None,
{
}

} // verus!
