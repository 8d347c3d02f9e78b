use vstd::prelude::*;

verus! {

/// Height of the panel in pixels.
pub const PANEL_HEIGHT: i32 = 18;

/// Where the panel stands: fully shown, or reduced to a one-pixel sliver.
#[derive(Debug, Clone, Copy, PartialEq, Eq, Structural)]
pub enum Visibility {
    Visible,
    Hidden,
}

/// The primary display's size, from which the panel's placement follows.
/// The panel is as wide as the display and anchored at x = 0.
#[derive(Debug, Clone, Copy, PartialEq, Eq, Structural)]
pub struct PanelGeometry {
    pub width: i32,
    pub screen_height: i32,
}

impl PanelGeometry {
    /// Both panel positions fit in an `i32`.
    pub open spec fn wf(self) -> bool {
        self.screen_height >= i32::MIN + PANEL_HEIGHT
    }

    /// The top edge of the panel in the given state.
    pub open spec fn top_spec(self, v: Visibility) -> int {
        match v {
            Visibility::Visible => self.screen_height - PANEL_HEIGHT,
            Visibility::Hidden => self.screen_height - 1,
        }
    }

    pub fn new(width: i32, screen_height: i32) -> (r: PanelGeometry)
        requires
            screen_height >= i32::MIN + PANEL_HEIGHT,
        ensures
            r.wf(),
            r.width == width,
            r.screen_height == screen_height,
    {
        PanelGeometry { width, screen_height }
    }

    /// The top edge of the panel in the given state.
    pub fn top(&self, v: Visibility) -> (r: i32)
        requires
            self.wf(),
        ensures
            r == self.top_spec(v),
    {
        match v {
            Visibility::Visible => self.screen_height - PANEL_HEIGHT,
            Visibility::Hidden => self.screen_height - 1,
        }
    }
}

/// The show/hide state machine of the panel.
///
/// Entering shows the panel at once. Leaving arms a hide that is due
/// `hide_delay_ms` later; the hide happens when a timer reports a time at or
/// after that deadline. With `cancel_on_enter` a later enter disarms a pending
/// hide; without it the pending hide still fires, as a blocking sleep before
/// the move would behave.
#[derive(Debug, Clone, Copy, PartialEq, Eq, Structural)]
pub struct VisibilityController {
    pub geometry: PanelGeometry,
    pub hide_delay_ms: u64,
    pub cancel_on_enter: bool,
    pub state: Visibility,
    /// The time at which an armed hide is due.
    pub hide_due_ms: Option<u64>,
}

impl VisibilityController {
    pub open spec fn wf(self) -> bool {
        self.geometry.wf()
    }

    /// The controller after a pointer enter.
    pub open spec fn entered(self) -> Self {
        VisibilityController {
            state: Visibility::Visible,
            hide_due_ms: if self.cancel_on_enter { None } else { self.hide_due_ms },
            ..self
        }
    }

    /// The controller after a pointer leave at `now_ms`.
    pub open spec fn left(self, now_ms: u64) -> Self {
        VisibilityController { hide_due_ms: Some((now_ms + self.hide_delay_ms) as u64), ..self }
    }

    /// Whether a hide is due at `now_ms`.
    pub open spec fn hide_is_due(self, now_ms: u64) -> bool {
        match self.hide_due_ms {
            Some(d) => now_ms >= d,
            None => false,
        }
    }

    /// The controller after a timer reports `now_ms`.
    pub open spec fn timed(self, now_ms: u64) -> Self {
        if self.hide_is_due(now_ms) {
            VisibilityController { state: Visibility::Hidden, hide_due_ms: None, ..self }
        } else {
            self
        }
    }

    /// A visible panel with no hide armed.
    pub fn new(geometry: PanelGeometry, hide_delay_ms: u64, cancel_on_enter: bool) -> (r: Self)
        requires
            geometry.wf(),
        ensures
            r.wf(),
            r.geometry == geometry,
            r.hide_delay_ms == hide_delay_ms,
            r.cancel_on_enter == cancel_on_enter,
            r.state == Visibility::Visible,
            r.hide_due_ms.is_none(),
    {
        VisibilityController {
            geometry,
            hide_delay_ms,
            cancel_on_enter,
            state: Visibility::Visible,
            hide_due_ms: None,
        }
    }

    /// The top edge of the panel in its current state.
    pub fn current_top(&self) -> (r: i32)
        requires
            self.wf(),
        ensures
            r == self.geometry.top_spec(self.state),
    {
        self.geometry.top(self.state)
    }

    /// The pointer entered the panel: it becomes visible at once, whatever its
    /// state was, and the returned top edge is where it must be moved to.
    pub fn pointer_enter(&mut self) -> (r: i32)
        requires
            old(self).wf(),
        ensures
            *final(self) == old(self).entered(),
            final(self).wf(),
            final(self).state == Visibility::Visible,
            r == old(self).geometry.screen_height - PANEL_HEIGHT,
    {
        self.state = Visibility::Visible;
        if self.cancel_on_enter {
            self.hide_due_ms = None;
        }
        self.geometry.top(Visibility::Visible)
    }

    /// The pointer left the panel at `now_ms`: a hide is armed for
    /// `now_ms + hide_delay_ms`, which is returned. Nothing moves yet.
    pub fn pointer_leave(&mut self, now_ms: u64) -> (r: u64)
        requires
            old(self).wf(),
            now_ms + old(self).hide_delay_ms <= u64::MAX,
        ensures
            *final(self) == old(self).left(now_ms),
            final(self).wf(),
            r == now_ms + old(self).hide_delay_ms,
            final(self).hide_due_ms == Some(r),
    {
        let due = now_ms + self.hide_delay_ms;
        self.hide_due_ms = Some(due);
        due
    }

    /// A timer reports the time `now_ms`. Where an armed hide is due, the panel
    /// becomes hidden and the returned top edge is where it must be moved to;
    /// otherwise nothing changes and `None` comes back.
    pub fn timer_fired(&mut self, now_ms: u64) -> (r: Option<i32>)
        requires
            old(self).wf(),
        ensures
            *final(self) == old(self).timed(now_ms),
            final(self).wf(),
            old(self).hide_is_due(now_ms) ==> r == Some(
                (old(self).geometry.screen_height - 1) as i32,
            ),
            !old(self).hide_is_due(now_ms) ==> r.is_none(),
    {
        let due = match self.hide_due_ms {
            Some(d) => now_ms >= d,
            None => false,
        };
        if due {
            self.state = Visibility::Hidden;
            self.hide_due_ms = None;
            Some(self.geometry.top(Visibility::Hidden))
        } else {
            None
        }
    }
}

/// After a leave at `t`, a timer at `t2` hides the panel exactly when
/// `t2 >= t + hide_delay_ms`, whatever the state before; the hidden panel's
/// top edge is one pixel above the bottom of the screen.
pub proof fn lemma_hide_after_delay(c: VisibilityController, t: u64, t2: u64)
    requires
        c.wf(),
        t + c.hide_delay_ms <= u64::MAX,
    ensures
        c.left(t).hide_is_due(t2) <==> t2 >= t + c.hide_delay_ms,
        t2 >= t + c.hide_delay_ms ==> c.left(t).timed(t2).state == Visibility::Hidden,
        t2 < t + c.hide_delay_ms ==> c.left(t).timed(t2) == c.left(t),
        c.geometry.top_spec(Visibility::Hidden) == c.geometry.screen_height - 1,
{
}

/// An enter shows the panel at `screen_height - PANEL_HEIGHT` from any state;
/// where enters cancel pending hides, no timer hides it afterwards until the
/// pointer leaves again.
pub proof fn lemma_enter_shows(c: VisibilityController, t: u64)
    requires
        c.wf(),
    ensures
        c.entered().state == Visibility::Visible,
        c.geometry.top_spec(c.entered().state) == c.geometry.screen_height - PANEL_HEIGHT,
        c.cancel_on_enter ==> c.entered().timed(t).state == Visibility::Visible,
{
}

} // verus!
