//! The cursor-confinement state machine.
//!
//! Each poll tick the caller observes the cursor position and the key states,
//! packs them into a [`TickInput`], and calls [`ConfinementState::step`]. The
//! step function decides, in a fixed order, which clip commands the platform
//! must be given this tick and how the state changes:
//!
//! 1. defensive reapplication of the current clip,
//! 2. release-key rising-edge detection,
//! 3. edge-triggered release,
//! 4. re-lock when the cursor returns into the rectangle,
//! 5. monitor reassignment while the reassignment key is held.
//!
//! The caller performs the returned [`ClipCommand`]s in order and prints a
//! status line for each raised notification flag.

use vstd::prelude::*;

use crate::geometry::{at_edge, at_rect_edge, in_rect, point_in_rect, Point, Rect};

verus! {

/// What the polling loop observed this tick.
///
/// `monitor_under_cursor` is the platform's point-to-monitor lookup for the
/// observed cursor position (`None` when no monitor resolves); it is only
/// consulted while the reassignment key is held.
#[derive(Clone, Copy, PartialEq, Eq, Structural, Debug)]
pub struct TickInput {
    pub cursor: Point,
    pub primary_release_key_down: bool,
    pub secondary_release_key_down: bool,
    pub reassign_key_down: bool,
    pub monitor_under_cursor: Option<Rect>,
}

/// A command for the platform's cursor-clipping service.
#[derive(Clone, Copy, PartialEq, Eq, Structural, Debug)]
pub enum ClipCommand {
    /// Restrict the cursor to the rectangle.
    Apply(Rect),
    /// Lift the restriction.
    Clear,
}

/// The clip commands a tick decided on, in the order they must be issued,
/// and the state transitions worth reporting to the user.
pub struct TickOutput {
    pub commands: Vec<ClipCommand>,
    /// A release-key rising edge was observed: release will happen at the edge.
    pub release_requested: bool,
    /// The cursor reached the edge and the clip was lifted.
    pub released: bool,
    /// The cursor returned into the rectangle and the clip was reapplied.
    pub relocked: bool,
    /// Confinement was retargeted to the monitor under the cursor.
    pub reassigned: bool,
}

/// The mutable runtime core: the confinement target and the lock/release
/// flags, mutated exclusively by [`ConfinementState::step`] once per tick.
#[derive(Clone, Copy, PartialEq, Eq, Structural, Debug)]
pub struct ConfinementState {
    /// The rectangle currently intended for confinement.
    pub active_rect: Rect,
    /// Whether the platform is currently configured to restrict the cursor
    /// to `active_rect`.
    pub is_clipped: bool,
    /// Whether a release was requested and is waiting for the cursor to
    /// reach the rectangle edge.
    pub pending_release: bool,
    /// The previous tick's combined release-key state, for edge-triggered
    /// detection.
    pub prev_release_key_down: bool,
}

/// The two configured release keys, combined with logical OR.
pub open spec fn release_key_down(inp: TickInput) -> bool {
    inp.primary_release_key_down || inp.secondary_release_key_down
}

/// A release-key rising edge: down this tick, up on the previous one.
pub open spec fn rising_release_edge(s: ConfinementState, inp: TickInput) -> bool {
    release_key_down(inp) && !s.prev_release_key_down
}

/// The pending-release flag after the rising-edge check of this tick.
pub open spec fn pending_after_request(s: ConfinementState, inp: TickInput) -> bool {
    s.pending_release || rising_release_edge(s, inp)
}

/// This tick lifts the clip: a release is pending and the cursor has reached
/// the rectangle edge.
pub open spec fn releases(s: ConfinementState, inp: TickInput) -> bool {
    s.is_clipped && pending_after_request(s, inp) && at_edge(inp.cursor, s.active_rect)
}

/// This tick re-locks: the cursor is free and has returned into the
/// confinement rectangle.
pub open spec fn relocks(s: ConfinementState, inp: TickInput) -> bool {
    !s.is_clipped && in_rect(inp.cursor, s.active_rect)
}

/// This tick retargets confinement: the reassignment key is held and the
/// monitor under the cursor has a rectangle that differs from the active one.
pub open spec fn reassigns(s: ConfinementState, inp: TickInput) -> bool {
    inp.reassign_key_down && match inp.monitor_under_cursor {
        Some(r) => r != s.active_rect,
        None => false,
    }
}

/// The state after one tick.
pub open spec fn next_state(s: ConfinementState, inp: TickInput) -> ConfinementState {
    let target = inp.monitor_under_cursor->Some_0;
    ConfinementState {
        active_rect: if reassigns(s, inp) {
            target
        } else {
            s.active_rect
        },
        is_clipped: if reassigns(s, inp) {
            true
        } else if releases(s, inp) {
            false
        } else if relocks(s, inp) {
            true
        } else {
            s.is_clipped
        },
        pending_release: if reassigns(s, inp) || relocks(s, inp) {
            false
        } else {
            pending_after_request(s, inp)
        },
        prev_release_key_down: release_key_down(inp),
    }
}

/// The clip commands one tick issues, in order: the defensive reapplication,
/// then the command of whichever of release / re-lock fired, then the
/// reassignment's clip.
pub open spec fn tick_commands(s: ConfinementState, inp: TickInput) -> Seq<ClipCommand> {
    let defensive: Seq<ClipCommand> = if s.is_clipped && !s.pending_release {
        seq![ClipCommand::Apply(s.active_rect)]
    } else {
        Seq::empty()
    };
    let release: Seq<ClipCommand> = if releases(s, inp) {
        seq![ClipCommand::Clear]
    } else {
        Seq::empty()
    };
    let relock: Seq<ClipCommand> = if relocks(s, inp) {
        seq![ClipCommand::Apply(s.active_rect)]
    } else {
        Seq::empty()
    };
    let reassign: Seq<ClipCommand> = if reassigns(s, inp) {
        seq![ClipCommand::Apply(inp.monitor_under_cursor->Some_0)]
    } else {
        Seq::empty()
    };
    defensive + release + relock + reassign
}

impl TickInput {
    /// Any rectangle the platform's point-to-monitor lookup reported is
    /// non-degenerate.
    pub open spec fn well_formed(self) -> bool {
        match self.monitor_under_cursor {
            Some(r) => r.well_formed(),
            None => true,
        }
    }
}

impl ConfinementState {
    /// The confinement rectangle is non-degenerate.
    pub open spec fn well_formed(self) -> bool {
        self.active_rect.well_formed()
    }

    /// The initial state after the startup monitor selection: locked to
    /// `rect`, no release pending. The caller issues the initial clip.
    pub fn new(rect: Rect) -> (s: ConfinementState)
        requires
            rect.well_formed(),
        ensures
            s == (ConfinementState {
                active_rect: rect,
                is_clipped: true,
                pending_release: false,
                prev_release_key_down: false,
            }),
    {
        ConfinementState {
            active_rect: rect,
            is_clipped: true,
            pending_release: false,
            prev_release_key_down: false,
        }
    }

    /// One poll tick. Decides the clip commands to issue and updates the
    /// state; the caller performs the commands in order and reports the
    /// raised notification flags.
    pub fn step(&mut self, inp: TickInput) -> (out: TickOutput)
        requires
            old(self).well_formed(),
            inp.well_formed(),
        ensures
            *final(self) == next_state(*old(self), inp),
            final(self).well_formed(),
            out.commands@ == tick_commands(*old(self), inp),
            out.release_requested == rising_release_edge(*old(self), inp),
            out.released == releases(*old(self), inp),
            out.relocked == relocks(*old(self), inp),
            out.reassigned == reassigns(*old(self), inp),
    {
        let mut commands: Vec<ClipCommand> = Vec::new();

        // Defensive reapplication: some platform events silently clear an
        // active clip, so while locked the clip is reissued every tick.
        if self.is_clipped && !self.pending_release {
            commands.push(ClipCommand::Apply(self.active_rect));
        }

        // Release-key rising-edge detection.
        let down = inp.primary_release_key_down || inp.secondary_release_key_down;
        let release_requested = down && !self.prev_release_key_down;
        if release_requested {
            self.pending_release = true;
        }
        self.prev_release_key_down = down;

        // Edge-triggered release, else re-lock on return.
        let mut released = false;
        let mut relocked = false;
        if self.is_clipped && self.pending_release && at_rect_edge(&inp.cursor, &self.active_rect)
        {
            commands.push(ClipCommand::Clear);
            self.is_clipped = false;
            released = true;
        } else if !self.is_clipped && point_in_rect(&inp.cursor, &self.active_rect) {
            commands.push(ClipCommand::Apply(self.active_rect));
            self.is_clipped = true;
            self.pending_release = false;
            relocked = true;
        }

        // Monitor reassignment: a level check, fired while the key is held
        // and the monitor under the cursor differs from the active one.
        let mut reassigned = false;
        if inp.reassign_key_down {
            if let Some(new_rect) = inp.monitor_under_cursor {
                if new_rect.left != self.active_rect.left || new_rect.top != self.active_rect.top
                    || new_rect.right != self.active_rect.right
                    || new_rect.bottom != self.active_rect.bottom {
                    commands.push(ClipCommand::Apply(new_rect));
                    self.active_rect = new_rect;
                    self.is_clipped = true;
                    self.pending_release = false;
                    reassigned = true;
                }
            }
        }

        proof {
            assert(commands@ =~= tick_commands(*old(self), inp));
        }

        TickOutput { commands, release_requested, released, relocked, reassigned }
    }
}

/// Law: defensive reapplication is idempotent. While the state is locked
/// (`is_clipped` and not `pending_release`), a tick that brings no
/// release-key rising edge and no reassignment leaves the state exactly as
/// it was and issues exactly the one identical clip command — so repeating
/// such ticks does nothing beyond re-issuing that command.
pub proof fn lemma_defensive_reapply_idempotent(s: ConfinementState, inp: TickInput)
    requires
        s.is_clipped,
        !s.pending_release,
        release_key_down(inp) == s.prev_release_key_down,
        !reassigns(s, inp),
    ensures
        next_state(s, inp) == s,
        tick_commands(s, inp) == seq![ClipCommand::Apply(s.active_rect)],
{
    assert(tick_commands(s, inp) =~= seq![ClipCommand::Apply(s.active_rect)]);
}

} // verus!
