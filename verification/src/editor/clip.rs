use vstd::prelude::*;

verus! {

/// The three clip points that alt-clicks in a 2d view place: the first
/// three clicks create the point markers one after the other, later clicks
/// move the points round in turn.
#[derive(Debug, Clone, Copy, PartialEq, Eq, Structural)]
pub struct ClipPoints {
    /// How many point markers exist (they are created in order).
    pub spawned: usize,
    /// Counts the clicks that moved a point; the next one moves point
    /// `next_point % 3`.
    pub next_point: usize,
}

/// What a click does to the clip points.
#[derive(Debug, Clone, Copy, PartialEq, Eq, Structural)]
pub enum ClipPointAction {
    /// Create the marker of this point at the clicked position.
    Spawn(usize),
    /// Move this point, and its marker, to the clicked position.
    Move(usize),
}

impl ClipPoints {
    pub open spec fn wf(&self) -> bool {
        self.spawned <= 3
    }

    pub fn new() -> (res: ClipPoints)
        ensures
            res.wf(),
            res.spawned == 0,
            res.next_point == 0,
    {
        ClipPoints { spawned: 0, next_point: 0 }
    }

    /// Handles a click that places a clip point. While markers are missing
    /// the click creates the first missing one and moves nothing; once all
    /// three exist it moves point `next_point % 3` and counts the click.
    pub fn place_point(&mut self) -> (res: ClipPointAction)
        requires
            old(self).wf(),
            old(self).spawned == 3 ==> old(self).next_point < usize::MAX,
        ensures
            final(self).wf(),
            old(self).spawned < 3 ==> res == ClipPointAction::Spawn(old(self).spawned as usize)
                && final(self).spawned == old(self).spawned + 1 && final(self).next_point
                == old(self).next_point,
            old(self).spawned == 3 ==> res == ClipPointAction::Move((old(self).next_point % 3) as usize)
                && final(self).spawned == 3 && final(self).next_point == old(self).next_point + 1,
    {
        if self.spawned < 3 {
            let k = self.spawned;
            self.spawned = self.spawned + 1;
            ClipPointAction::Spawn(k)
        } else {
            let k = self.next_point % 3;
            self.next_point = self.next_point + 1;
            ClipPointAction::Move(k)
        }
    }

    /// Leaving clip mode starts the point order over at the first point.
    pub fn reset_order(&mut self)
        ensures
            final(self).spawned == old(self).spawned,
            final(self).next_point == 0,
    {
        self.next_point = 0;
    }
}

/// Once all markers exist, three clicks in a row move each of the three
/// points once.
pub proof fn lemma_three_clicks_move_every_point(n: nat)
    ensures
        set![n % 3, (n + 1) % 3, (n + 2) % 3] =~= set![0nat, 1nat, 2nat],
{
    assert(n % 3 == 0 || n % 3 == 1 || n % 3 == 2);
    if n % 3 == 0 {
        assert((n + 1) % 3 == 1 && (n + 2) % 3 == 2);
    } else if n % 3 == 1 {
        assert((n + 1) % 3 == 2 && (n + 2) % 3 == 0);
    } else {
        assert((n + 1) % 3 == 0 && (n + 2) % 3 == 1);
    }
}

/// Which clip-plane point the next click of the plane tool sets.
#[derive(Debug, Clone, Copy, PartialEq, Eq, Structural)]
pub enum NextClipPoint {
    Point0,
    Point1,
}

impl Default for NextClipPoint {
    fn default() -> (res: NextClipPoint)
        ensures
            res == NextClipPoint::Point0,
    {
        NextClipPoint::Point0
    }
}

impl NextClipPoint {
    /// The plane points a click sets, and the state after it: the first
    /// click sets point 0, the second sets points 1 and 2 (the second one
    /// along the view direction) and starts over.
    pub fn advance(&self) -> (res: (Vec<usize>, NextClipPoint))
        ensures
            *self == NextClipPoint::Point0 ==> res.0@ == seq![0usize] && res.1 == NextClipPoint::Point1,
            *self == NextClipPoint::Point1 ==> res.0@ == seq![1usize, 2usize] && res.1
                == NextClipPoint::Point0,
    {
        match self {
            NextClipPoint::Point0 => (vec![0], NextClipPoint::Point1),
            NextClipPoint::Point1 => (vec![1, 2], NextClipPoint::Point0),
        }
    }
}

/// How the clip preview changes when clip mode is compared with what it was
/// when the preview was last shown.
#[derive(Debug, Clone, Copy, PartialEq, Eq, Structural)]
pub enum ClipModeChange {
    /// Show the two halves, hide the brush.
    Enter,
    /// Hide the halves, show the brush again and restart the point order.
    Leave,
    Stay,
}

pub fn clip_mode_change(clip_mode: bool, last_clip_mode: bool) -> (res: ClipModeChange)
    ensures
        res == (if clip_mode && !last_clip_mode {
            ClipModeChange::Enter
        } else if !clip_mode && last_clip_mode {
            ClipModeChange::Leave
        } else {
            ClipModeChange::Stay
        }),
{
    if clip_mode && !last_clip_mode {
        ClipModeChange::Enter
    } else if !clip_mode && last_clip_mode {
        ClipModeChange::Leave
    } else {
        ClipModeChange::Stay
    }
}

/// The preview is rebuilt when the selected brush or the clip plane changed,
/// when clip mode changed, or when a key that applies a half is pressed.
pub fn preview_needs_update(
    brush_changed: bool,
    plane_changed: bool,
    clip_mode: bool,
    last_clip_mode: bool,
    apply_red: bool,
    apply_green: bool,
) -> (res: bool)
    ensures
        res == (brush_changed || plane_changed || clip_mode != last_clip_mode || apply_red
            || apply_green),
{
    brush_changed || plane_changed || clip_mode != last_clip_mode || apply_red || apply_green
}

/// The two halves a clip makes: the one in front of the plane is shown red,
/// the one behind it green.
#[derive(Debug, Clone, Copy, PartialEq, Eq, Structural)]
pub enum ClipHalf {
    Red,
    Green,
}

/// The half that the pressed keys apply: red wins when both are pressed.
/// Applying a half leaves clip mode.
pub fn chosen_half(apply_red: bool, apply_green: bool) -> (res: Option<ClipHalf>)
    ensures
        apply_red ==> res == Some(ClipHalf::Red),
        !apply_red && apply_green ==> res == Some(ClipHalf::Green),
        !apply_red && !apply_green ==> res == None::<ClipHalf>,
{
    if apply_red {
        Some(ClipHalf::Red)
    } else if apply_green {
        Some(ClipHalf::Green)
    } else {
        None
    }
}

} // verus!
