use vstd::prelude::*;

use crate::anc::{
    cycle_mode, should_emit, spec_cycle_mode, AncCliMode, AncState, CycleDirection,
    DEFAULT_AMBIENT_LEVEL,
};
use crate::output::{status_line, status_output, WaybarOutput};

verus! {

/// The mode of a state, `None` standing for the disconnected earbuds.
pub open spec fn mode_of(state: Option<AncState>) -> Option<AncCliMode> {
    match state {
        Some(s) => Some(s.mode),
        None => None,
    }
}

/// Decides whether a status line is due: one is when the mode differs from
/// the last one shown (`None` is the disconnected state). When it is, `last`
/// becomes the new mode and the line to show is returned.
pub fn emit_anc_if_changed(last: &mut Option<AncCliMode>, state: Option<AncState>) -> (line:
    Option<WaybarOutput>)
    ensures
        *final(last) == mode_of(state),
        (line is Some) == (*old(last) != mode_of(state)),
        line matches Some(out) ==> out@ == status_line(state),
{
    let mode = match state {
        Some(s) => Some(s.mode),
        None => None,
    };
    if should_emit(*last, mode) {
        *last = mode;
        Some(status_output(state))
    } else {
        None
    }
}

/// What the long-running watch keeps between events: the mode last shown
/// (`None` for disconnected) and the ambient level last reported.
#[derive(Clone, Copy, Debug)]
pub struct WatchState {
    pub last: Option<AncCliMode>,
    pub current_level: u8,
}

impl WatchState {
    /// The state a watch starts in, with the line it shows at once: the
    /// disconnected state. Nothing has been shown before, and the disconnected
    /// state is also what `last` starts as, so without this line the bar would
    /// stay empty until the earbuds connect.
    pub fn start() -> (res: (WatchState, WaybarOutput))
        ensures
            res.0.last is None,
            res.0.current_level == DEFAULT_AMBIENT_LEVEL,
            res.1@ == status_line(None),
    {
        (WatchState { last: None, current_level: DEFAULT_AMBIENT_LEVEL }, status_output(None))
    }

    /// A status was read from the earbuds: remember its level, and show it when
    /// its mode differs from the one last shown.
    pub fn on_status(&mut self, state: AncState) -> (line: Option<WaybarOutput>)
        ensures
            final(self).current_level == state.ambient_level,
            final(self).last == Some(state.mode),
            (line is Some) == (old(self).last != Some(state.mode)),
            line matches Some(out) ==> out@ == status_line(Some(state)),
    {
        self.current_level = state.ambient_level;
        emit_anc_if_changed(&mut self.last, Some(state))
    }

    /// The connection ended: show the disconnected state, once.
    pub fn on_disconnect(&mut self) -> (line: Option<WaybarOutput>)
        ensures
            final(self).current_level == old(self).current_level,
            final(self).last is None,
            (line is Some) == (old(self).last is Some),
            line matches Some(out) ==> out@ == status_line(None),
    {
        emit_anc_if_changed(&mut self.last, None)
    }

    /// The mode and ambient level to request on a cycle signal: one step in
    /// `direction` from the mode last shown (from ANC when none was shown), at
    /// the level last reported.
    pub fn cycle_request(&self, direction: CycleDirection) -> (req: (AncCliMode, u8))
        ensures
            req == (
                spec_cycle_mode(
                    match self.last {
                        Some(m) => m,
                        None => AncCliMode::Anc,
                    },
                    direction,
                ),
                self.current_level,
            ),
    {
        let from = match self.last {
            Some(m) => m,
            None => AncCliMode::Anc,
        };
        (cycle_mode(from, direction), self.current_level)
    }
}

/// Two states of different modes are shown as different lines.
pub proof fn law_lines_of_different_modes_differ(a: Option<AncState>, b: Option<AncState>)
    requires
        mode_of(a) != mode_of(b),
    ensures
        status_line(a) != status_line(b),
{
    reveal_strlit("anc");
    reveal_strlit("ambient");
    reveal_strlit("anc-off");
    reveal_strlit("disconnected");
    assert("anc"@.len() == 3);
    assert("ambient"@.len() == 7 && "ambient"@[1] == 'm');
    assert("anc-off"@.len() == 7 && "anc-off"@[1] == 'n');
    assert("disconnected"@.len() == 12);
    assert(status_line(a).2 != status_line(b).2);
}

/// The states whose lines are shown when `events` (a status read, or `None`
/// for a disconnection) arrive one after the other, the mode last shown being
/// `last`: an event is shown when its mode differs from the mode last shown,
/// and its mode is the mode last shown from then on.
pub open spec fn shown_states(last: Option<AncCliMode>, events: Seq<Option<AncState>>) -> Seq<
    Option<AncState>,
>
    decreases events.len(),
{
    if events.len() == 0 {
        Seq::empty()
    } else {
        let e = events[0];
        if last != mode_of(e) {
            seq![e] + shown_states(mode_of(e), events.drop_first())
        } else {
            shown_states(mode_of(e), events.drop_first())
        }
    }
}

proof fn lemma_shown_states_alternate(last: Option<AncCliMode>, events: Seq<Option<AncState>>)
    ensures
        shown_states(last, events).len() > 0 ==> mode_of(shown_states(last, events)[0]) != last,
        forall|i: int|
            0 <= i < shown_states(last, events).len() - 1 ==> mode_of(
                #[trigger] shown_states(last, events)[i],
            ) != mode_of(shown_states(last, events)[i + 1]),
    decreases events.len(),
{
    if events.len() > 0 {
        let e = events[0];
        let rest = events.drop_first();
        lemma_shown_states_alternate(mode_of(e), rest);
        let tail = shown_states(mode_of(e), rest);
        if last != mode_of(e) {
            let all = seq![e] + tail;
            assert forall|i: int| 0 <= i < all.len() - 1 implies mode_of(#[trigger] all[i]) != mode_of(
                all[i + 1],
            ) by {
                if i > 0 {
                    assert(all[i] == tail[i - 1]);
                    assert(all[i + 1] == tail[i]);
                }
            }
        }
    }
}

/// A watch never shows the same line twice in a row: it first shows the
/// disconnected line, then the lines of `shown_states(None, events)`, and any
/// two consecutive lines of that list differ.
pub proof fn law_watch_never_repeats_a_line(events: Seq<Option<AncState>>)
    ensures
        ({
            let lines = seq![None::<AncState>] + shown_states(None, events);
            forall|i: int|
                0 <= i < lines.len() - 1 ==> status_line(#[trigger] lines[i]) != status_line(
                    lines[i + 1],
                )
        }),
{
    let shown = shown_states(None, events);
    let lines = seq![None::<AncState>] + shown;
    lemma_shown_states_alternate(None, events);
    assert forall|i: int| 0 <= i < lines.len() - 1 implies status_line(#[trigger] lines[i])
        != status_line(lines[i + 1]) by {
        if i == 0 {
            assert(lines[1] == shown[0]);
            assert(mode_of(lines[0]) == None::<AncCliMode>);
        } else {
            assert(lines[i] == shown[i - 1]);
            assert(lines[i + 1] == shown[i]);
        }
        law_lines_of_different_modes_differ(lines[i], lines[i + 1]);
    }
}

} // verus!
