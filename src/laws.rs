use vstd::prelude::*;
use vstd::seq_lib::to_multiset_update;
use crate::panel::{
    clamped_after_delete, flashed, section_text, swapped, transition, EffectView, Event, Mode,
    Operation, Panel, UiSection,
};
use crate::draw::position_text;
use crate::checklist::Todo;

verus! {

/// Exchanging two entries keeps the same entries.
pub proof fn lemma_swap_same_entries(s: Seq<Todo>, i: int, j: int)
    requires
        0 <= i < s.len(),
        0 <= j < s.len(),
        i != j,
    ensures
        swapped(s, i, j).to_multiset() == s.to_multiset(),
{
    broadcast use vstd::multiset::group_multiset_axioms;

    let s1 = s.update(i, s[j]);
    to_multiset_update(s, i, s[j]);
    to_multiset_update(s1, j, s[i]);
    assert(s1[j] == s[j]);
    s.to_multiset_ensures();
    assert(s.contains(s[i]));
    assert(s.contains(s[j]));
    assert(swapped(s, i, j).to_multiset() =~= s.to_multiset());
}

/// Every event that a live panel handles leaves the highlighted index on an
/// entry, or at 0 when the list is empty.
pub proof fn law_highlight_in_range(p: Panel, e: Event, q: Panel, out: Seq<EffectView>, w: nat, h: nat)
    requires
        p.wf(),
        p.mode != Mode::Terminated,
        transition(p, e, q, out, w, h),
    ensures
        q.list.todos@.len() > 0 ==> q.highlighted < q.list.todos@.len(),
        q.list.todos@.len() == 0 ==> q.highlighted == 0,
{
}

/// Moving the highlight up from the first entry, or down from the last, does
/// nothing.
pub proof fn law_highlight_stops_at_ends(p: Panel, e: Event, q: Panel, out: Seq<EffectView>, w: nat, h: nat)
    requires
        p.wf(),
        p.mode != Mode::Terminated,
        transition(p, e, q, out, w, h),
        (e == Event::HighlightUp && p.highlighted == 0) || (e == Event::HighlightDown
            && p.highlighted + 1 == p.list.todos@.len()),
    ensures
        q == p,
        out.len() == 0,
{
}

/// Moving an entry does nothing on a list of fewer than two entries; otherwise
/// the list keeps the same entries, and the moved entry, still highlighted,
/// stands one place earlier (`MoveUp`) or later (`MoveDown`) than before, or
/// the list is untouched when the entry is already at that end.
pub proof fn law_move_keeps_entries(p: Panel, e: Event, q: Panel, out: Seq<EffectView>, w: nat, h: nat)
    requires
        p.wf(),
        p.mode != Mode::Terminated,
        e == Event::MoveUp || e == Event::MoveDown,
        transition(p, e, q, out, w, h),
    ensures
        p.list.todos@.len() < 2 ==> q == p && out.len() == 0,
        q.list.todos@.to_multiset() == p.list.todos@.to_multiset(),
        q.list.todos@.len() == p.list.todos@.len(),
        q.list.todos@[q.highlighted as int] == p.list.todos@[p.highlighted as int],
        e == Event::MoveUp && q != p ==> q.highlighted == p.highlighted - 1,
        e == Event::MoveDown && q != p ==> q.highlighted == p.highlighted + 1,
{
    let s = p.list.todos@;
    let hl = p.highlighted as int;
    if e == Event::MoveUp && s.len() >= 2 && hl > 0 {
        lemma_swap_same_entries(s, hl - 1, hl);
    } else if e == Event::MoveDown && s.len() >= 2 && hl + 1 < s.len() {
        lemma_swap_same_entries(s, hl, hl + 1);
    }
}

/// Toggling twice gives back the list as it was.
pub proof fn law_toggle_twice(
    p: Panel,
    q: Panel,
    r: Panel,
    out1: Seq<EffectView>,
    out2: Seq<EffectView>,
    w: nat,
    h: nat,
)
    requires
        p.wf(),
        p.mode != Mode::Terminated,
        transition(p, Event::Toggle, q, out1, w, h),
        transition(q, Event::Toggle, r, out2, w, h),
    ensures
        r.list.todos@ == p.list.todos@,
        r.list.name == p.list.name,
        r.highlighted == p.highlighted,
{
    let s = p.list.todos@;
    if s.len() > 0 {
        let hl = p.highlighted as int;
        assert(r.list.todos@ =~= s);
    }
}

/// Deleting from a non-empty list removes exactly the highlighted entry; the
/// highlight stays where it was, moves up one when it was on the last entry,
/// and is 0 once the list is empty.
pub proof fn law_delete_shrinks(
    p: Panel,
    text: String,
    q: Panel,
    out: Seq<EffectView>,
    w: nat,
    h: nat,
)
    requires
        p.wf(),
        p.mode != Mode::Terminated,
        p.list.todos@.len() > 0,
        transition(p, Event::Commit(Operation::Delete, text), q, out, w, h),
    ensures
        q.list.todos@.len() == p.list.todos@.len() - 1,
        q.list.todos@ == p.list.todos@.remove(p.highlighted as int),
        q.highlighted == clamped_after_delete(p.highlighted as int, p.list.todos@.len() - 1),
        p.list.todos@.len() == 1 ==> q.highlighted == 0,
{
}

/// A second status message shown while the first one's timer still runs
/// cancels that timer first, then starts exactly one timer of its own, under a
/// new number.
pub proof fn law_second_flash_cancels_first(
    p0: Panel,
    p1: Panel,
    p2: Panel,
    first: Seq<char>,
    second: Seq<char>,
    out1: Seq<EffectView>,
    out2: Seq<EffectView>,
    h: nat,
)
    requires
        flashed(p0, p1, first, out1, h),
        flashed(p1, p2, second, out2, h),
    ensures
        out2 == seq![
            EffectView::CancelFlash,
            EffectView::Write(position_text(second, 1, h)),
            EffectView::ScheduleFlashClear(p2.flash_gen),
        ],
        out1.last() == EffectView::ScheduleFlashClear(p1.flash_gen),
        p2.flash_gen != p1.flash_gen,
        p2.flash_pending,
{
    assert(out2 =~= seq![
        EffectView::CancelFlash,
        EffectView::Write(position_text(second, 1, h)),
        EffectView::ScheduleFlashClear(p2.flash_gen),
    ]);
}

/// The expiry of a timer other than the latest one changes nothing, so an old
/// timer never clears a newer message.
pub proof fn law_stale_expiry_ignored(p: Panel, g: u64, q: Panel, out: Seq<EffectView>, w: nat, h: nat)
    requires
        p.wf(),
        p.mode != Mode::Terminated,
        g != p.flash_gen,
        transition(p, Event::FlashExpired(g), q, out, w, h),
    ensures
        q == p,
        out.len() == 0,
{
}

/// The expiry of the latest timer clears the status line and nothing else.
pub proof fn law_latest_expiry_clears(p: Panel, q: Panel, out: Seq<EffectView>, w: nat, h: nat)
    requires
        p.wf(),
        p.mode != Mode::Terminated,
        p.flash_pending,
        transition(p, Event::FlashExpired(p.flash_gen), q, out, w, h),
    ensures
        q == (Panel { flash_pending: false, ..p }),
        out == seq![EffectView::Write(section_text(Some(UiSection::Status), w, h))],
{
}

} // verus!
