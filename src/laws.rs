use vstd::prelude::*;
use crate::method::ScratchPadMethod;
use crate::pad::ScratchPad;
use crate::shell::{glyph, AppState};

verus! {

/// The state after the "new pad" action has run once for each pad of `ps`,
/// in order, starting from `s`.
pub open spec fn created_all(s: AppState, ps: Seq<ScratchPad>) -> AppState
    decreases ps.len(),
{
    if ps.len() == 0 {
        s
    } else {
        created_all(s, ps.drop_last()).created(ps.last())
    }
}

proof fn lemma_created_all(s: AppState, ps: Seq<ScratchPad>)
    ensures
        created_all(s, ps).pads == s.pads + ps,
        created_all(s, ps).selection == s.selection,
        created_all(s, ps).armed == s.armed,
    decreases ps.len(),
{
    if ps.len() > 0 {
        lemma_created_all(s, ps.drop_last());
        assert(s.pads + ps =~= (s.pads + ps.drop_last()).push(ps.last()));
    }
}

/// Creating N pads from start-up gives N pads, each fresh, with nothing
/// selected or armed; each position names its own pad, so selecting two
/// different positions gives two different current pads.
pub proof fn law_create_n(ps: Seq<ScratchPad>)
    requires
        forall|i: int| 0 <= i < ps.len() ==> #[trigger] ps[i].is_fresh(),
    ensures
        created_all(AppState::initial(), ps).pads.len() == ps.len(),
        forall|i: int|
            0 <= i < ps.len() ==> #[trigger] created_all(AppState::initial(), ps).pads[i].is_fresh(),
        created_all(AppState::initial(), ps).selection is None,
        !created_all(AppState::initial(), ps).armed,
        forall|i: int|
            0 <= i < ps.len() ==> #[trigger] created_all(AppState::initial(), ps).selected(i).current()
                == Some(i),
{
    lemma_created_all(AppState::initial(), ps);
    assert(created_all(AppState::initial(), ps).pads =~= ps);
}

/// A single press of the close control removes nothing: it only arms. A
/// second press right after it removes the current pad.
pub proof fn law_delete_needs_two_presses(s: AppState)
    requires
        s.current() is Some,
        !s.armed,
    ensures
        s.close_pressed().pads == s.pads,
        s.close_pressed().selection == s.selection,
        s.close_pressed().armed,
        s.close_pressed().close_pressed().pads == s.pads.remove(s.current()->0),
{
}

/// After a confirmed delete nothing is selected, nothing is armed, and the
/// close control shows its idle glyph, whichever position was removed.
pub proof fn law_delete_clears_selection(s: AppState)
    requires
        s.current() is Some,
        s.armed,
    ensures
        s.close_pressed().selection is None,
        !s.close_pressed().armed,
        glyph(s.close_pressed().armed) == glyph(false),
        s.close_pressed().detail() is None,
{
}

/// Selecting the pad at `i` makes the detail panel show that pad, with its
/// method and URL exactly.
pub proof fn law_select_then_detail(s: AppState, i: int)
    requires
        0 <= i < s.pads.len(),
    ensures
        s.selected(i).detail() == Some(s.pads[i]),
        s.selected(i).detail()->0.method == s.pads[i].method,
        s.selected(i).detail()->0.url == s.pads[i].url,
{
}

/// Removing the pad at position `k` keeps the pads before it, moves every
/// pad after it down by one position, and leaves the old last position
/// naming no pad.
pub proof fn law_delete_shifts(s: AppState, k: int)
    requires
        s.current() == Some(k),
        s.armed,
    ensures
        s.close_pressed().pads.len() == s.pads.len() - 1,
        forall|j: int| 0 <= j < k ==> #[trigger] s.close_pressed().pads[j] == s.pads[j],
        forall|j: int|
            k <= j < s.pads.len() - 1 ==> #[trigger] s.close_pressed().pads[j] == s.pads[j + 1],
        s.close_pressed().selected(s.pads.len() - 1) == s.close_pressed(),
{
}

/// Every action keeps the selection naming a pad that exists.
pub proof fn law_selection_stays_valid(s: AppState, p: ScratchPad, i: int, m: ScratchPadMethod, url: String)
    requires
        s.wf(),
    ensures
        AppState::initial().wf(),
        s.created(p).wf(),
        s.selected(i).wf(),
        s.close_pressed().wf(),
        s.method_set(m).wf(),
        s.url_set(url).wf(),
{
}

} // verus!
