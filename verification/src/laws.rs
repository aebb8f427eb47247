//! What holds of the guard across messages: what each message sets and what it
//! leaves alone, the guard's switch, page changes and window actions, the
//! selection never holding an id twice, clicking an entry twice undoing the
//! click, deletions in the edit dialog accumulating on its working copy, a
//! cancelled edit leaving the blacklist as it was, and the edit dialog deleting
//! as the direct delete does.
use vstd::prelude::*;
use crate::model::{
    entry_id_not_in, entry_id_other_than, id_other_than, next_id, run, step, toggled, without_id,
    without_ids, wf, action_of, EntryView, GuardView, Message, Page, WindowAction,
};

verus! {

broadcast use {Seq::lemma_filter_push, Seq::lemma_filter_contains_rev, vstd::seq_lib::group_filter_ensures};

/// Filtering a sequence without duplicates gives one without duplicates.
proof fn lemma_filter_no_duplicates<A>(s: Seq<A>, p: spec_fn(A) -> bool)
    requires
        s.no_duplicates(),
    ensures
        s.filter(p).no_duplicates(),
    decreases s.len(),
{
    if s.len() > 0 {
        let rest = s.drop_last();
        assert(s =~= rest.push(s.last()));
        lemma_filter_no_duplicates(rest, p);
        if rest.filter(p).contains(s.last()) {
            assert(rest.contains(s.last()));
        }
    }
}

/// Filtering a sequence all of whose elements pass gives it back.
proof fn lemma_filter_keeps_all<A>(s: Seq<A>, p: spec_fn(A) -> bool)
    requires
        forall|i: int| 0 <= i < s.len() ==> p(s[i]),
    ensures
        s.filter(p) == s,
    decreases s.len(),
{
    if s.len() > 0 {
        let rest = s.drop_last();
        assert(s =~= rest.push(s.last()));
        lemma_filter_keeps_all(rest, p);
    }
}

/// Every message keeps the selection of the edit dialog free of repeated ids.
pub proof fn lemma_step_keeps_wf(s: GuardView, m: Message)
    requires
        wf(s),
    ensures
        wf(step(s, m)),
{
    match m {
        Message::ToggleSelectDomain(id) => {
            let sel = s.selected_for_delete;
            if sel.contains(id) {
                lemma_filter_no_duplicates(sel, id_other_than(id));
            } else {
                assert(sel.push(id).no_duplicates()) by {
                    assert forall|i: int, j: int|
                        0 <= i < sel.push(id).len() && 0 <= j < sel.push(id).len() && i != j
                        implies sel.push(id)[i] != sel.push(id)[j] by {
                        if i == sel.len() {
                            assert(sel[j] == sel.push(id)[j]);
                        } else if j == sel.len() {
                            assert(sel[i] == sel.push(id)[i]);
                        }
                    }
                }
            }
        },
        _ => {},
    }
}

/// A well-formed state stays well-formed after any sequence of messages.
pub proof fn lemma_run_keeps_wf(s: GuardView, ms: Seq<Message>)
    requires
        wf(s),
    ensures
        wf(run(s, ms)),
    decreases ms.len(),
{
    if ms.len() > 0 {
        lemma_run_keeps_wf(s, ms.drop_last());
        lemma_step_keeps_wf(run(s, ms.drop_last()), ms.last());
    }
}

/// Clicking an entry of the edit dialog selects it if it was not selected and
/// deselects it if it was; no other id changes.
pub proof fn lemma_toggle_flips_one_id(s: GuardView, id: i32, x: i32)
    ensures
        step(s, Message::ToggleSelectDomain(id)).selected_for_delete.contains(x) <==> (if x == id {
            !s.selected_for_delete.contains(id)
        } else {
            s.selected_for_delete.contains(x)
        }),
{
    let sel = s.selected_for_delete;
    let p = id_other_than(id);
    let after = step(s, Message::ToggleSelectDomain(id)).selected_for_delete;
    assert(after == toggled(sel, id));
    if sel.contains(id) {
        assert(after == sel.filter(p));
        if x != id && sel.contains(x) {
            let i = choose|i: int| 0 <= i < sel.len() && sel[i] == x;
            assert(p(sel[i]));
            assert(sel.filter(p).contains(sel[i]));
        }
        if sel.filter(p).contains(x) {
            let i = choose|i: int| 0 <= i < sel.filter(p).len() && sel.filter(p)[i] == x;
            assert(p(sel.filter(p)[i]));
            assert(sel.contains(x));
        }
    } else {
        assert(after == sel.push(id));
        if x != id && sel.push(id).contains(x) {
            let i = choose|i: int| 0 <= i < sel.push(id).len() && sel.push(id)[i] == x;
            assert(sel[i] == x);
        }
        if sel.contains(x) {
            let i = choose|i: int| 0 <= i < sel.len() && sel[i] == x;
            assert(sel.push(id)[i] == x);
        }
        assert(sel.push(id)[sel.len() as int] == id);
    }
}

/// Clicking the same entry twice gives back the same set of selected ids, and,
/// where the entry was not selected, the very same state.
pub proof fn lemma_toggle_twice_restores(s: GuardView, id: i32)
    ensures
        step(step(s, Message::ToggleSelectDomain(id)), Message::ToggleSelectDomain(id)).selected_for_delete.to_set()
            == s.selected_for_delete.to_set(),
        !s.selected_for_delete.contains(id) ==> step(
            step(s, Message::ToggleSelectDomain(id)),
            Message::ToggleSelectDomain(id),
        ) == s,
{
    let once = step(s, Message::ToggleSelectDomain(id));
    let twice = step(once, Message::ToggleSelectDomain(id));
    assert forall|x: i32| twice.selected_for_delete.contains(x) <==> s.selected_for_delete.contains(x) by {
        lemma_toggle_flips_one_id(s, id, x);
        lemma_toggle_flips_one_id(once, id, x);
        lemma_toggle_flips_one_id(s, id, id);
    }
    assert(twice.selected_for_delete.to_set() =~= s.selected_for_delete.to_set());
    if !s.selected_for_delete.contains(id) {
        let sel = s.selected_for_delete;
        assert(sel.push(id)[sel.len() as int] == id);
        assert(sel.push(id).contains(id));
        let p = id_other_than(id);
        assert forall|i: int| 0 <= i < sel.len() implies p(sel[i]) by {
            if sel[i] == id {
                assert(sel.contains(id));
            }
        }
        lemma_filter_keeps_all(sel, p);
        assert(sel.push(id).filter(p) == sel.filter(p));
        assert(toggled(sel.push(id), id) == sel.push(id).filter(p));
        assert(twice.selected_for_delete =~= sel);
        assert(twice =~= s);
    }
}

/// The messages of the edit dialog that work on its selection and its copy of
/// the blacklist.
pub open spec fn is_dialog_edit(m: Message) -> bool {
    m is ToggleSelectDomain || m is DeleteSelected
}

proof fn lemma_dialog_edits_keep_blacklist(t: GuardView, ms: Seq<Message>)
    requires
        forall|i: int| 0 <= i < ms.len() ==> is_dialog_edit(#[trigger] ms[i]),
    ensures
        run(t, ms).blacklist == t.blacklist,
    decreases ms.len(),
{
    if ms.len() > 0 {
        let rest = ms.drop_last();
        assert forall|i: int| 0 <= i < rest.len() implies is_dialog_edit(#[trigger] rest[i]) by {
            assert(rest[i] == ms[i]);
        }
        lemma_dialog_edits_keep_blacklist(t, rest);
        assert(is_dialog_edit(ms[ms.len() - 1]));
    }
}

/// Opening the edit dialog, selecting and deleting entries in it and then
/// cancelling leaves the blacklist as it was and closes the dialog.
pub proof fn lemma_cancelled_edit_keeps_blacklist(s: GuardView, ms: Seq<Message>)
    requires
        forall|i: int| 0 <= i < ms.len() ==> is_dialog_edit(#[trigger] ms[i]),
    ensures
        step(run(step(s, Message::OpenEditPopup), ms), Message::CancelEdit).blacklist == s.blacklist,
        !step(run(step(s, Message::OpenEditPopup), ms), Message::CancelEdit).is_showing_edit_popup,
{
    lemma_dialog_edits_keep_blacklist(step(s, Message::OpenEditPopup), ms);
}

proof fn lemma_selections_keep_lists(t: GuardView, ms: Seq<Message>)
    requires
        forall|i: int| 0 <= i < ms.len() ==> #[trigger] ms[i] is ToggleSelectDomain,
    ensures
        run(t, ms).blacklist == t.blacklist,
        run(t, ms).temp_blacklist == t.temp_blacklist,
    decreases ms.len(),
{
    if ms.len() > 0 {
        let rest = ms.drop_last();
        assert forall|i: int| 0 <= i < rest.len() implies #[trigger] rest[i] is ToggleSelectDomain by {
            assert(rest[i] == ms[i]);
        }
        lemma_selections_keep_lists(t, rest);
        assert(ms[ms.len() - 1] is ToggleSelectDomain);
    }
}

/// Opening the edit dialog, only selecting or deselecting entries, and then
/// saving leaves the blacklist as it was.
pub proof fn lemma_save_without_deleting_keeps_blacklist(s: GuardView, ms: Seq<Message>)
    requires
        forall|i: int| 0 <= i < ms.len() ==> #[trigger] ms[i] is ToggleSelectDomain,
    ensures
        step(run(step(s, Message::OpenEditPopup), ms), Message::CloseEditPopup).blacklist
            == s.blacklist,
{
    lemma_selections_keep_lists(step(s, Message::OpenEditPopup), ms);
}

/// Selecting one entry in a freshly opened edit dialog, deleting the selection
/// and saving gives the same blacklist as deleting that id directly.
pub proof fn lemma_dialog_delete_matches_direct_delete(s: GuardView, id: i32)
    ensures
        step(
            step(
                step(step(s, Message::OpenEditPopup), Message::ToggleSelectDomain(id)),
                Message::DeleteSelected,
            ),
            Message::CloseEditPopup,
        ).blacklist == step(s, Message::DeleteDomain(id)).blacklist,
{
    let opened = step(s, Message::OpenEditPopup);
    let sel = step(opened, Message::ToggleSelectDomain(id)).selected_for_delete;
    assert(sel =~= seq![id]);
    let p1 = entry_id_not_in(sel);
    let p2 = entry_id_other_than(id);
    assert forall|e: EntryView| #[trigger] p1(e) == p2(e) by {
        if e.id == id {
            assert(sel[0] == e.id);
        }
    }
    assert(p1 =~= p2);
    assert(without_ids(s.blacklist, sel) == without_id(s.blacklist, id));
}

/// Typing a domain and adding it appends one entry with that domain, no hits
/// and the next id, and empties the input; an empty input adds nothing.
pub proof fn lemma_add_appends_typed_domain(s: GuardView, t: String)
    ensures
        t@.len() > 0 ==> step(step(s, Message::InputChanged(t)), Message::AddDomain).blacklist
            == s.blacklist.push(EntryView { id: next_id(s.blacklist.len()), domain: t@, hits: 0 }),
        t@.len() > 0 ==> step(step(s, Message::InputChanged(t)), Message::AddDomain).new_domain
            == Seq::<char>::empty(),
        t@.len() == 0 ==> step(step(s, Message::InputChanged(t)), Message::AddDomain).blacklist
            == s.blacklist,
{
}

/// Deleting the entry that was just added gives the blacklist back, when no
/// older entry carries the id that the new one got.
pub proof fn lemma_delete_undoes_add(s: GuardView)
    requires
        s.new_domain.len() > 0,
        forall|i: int|
            0 <= i < s.blacklist.len() ==> #[trigger] s.blacklist[i].id != next_id(
                s.blacklist.len(),
            ),
    ensures
        step(
            step(s, Message::AddDomain),
            Message::DeleteDomain(next_id(s.blacklist.len())),
        ).blacklist == s.blacklist,
{
    let id = next_id(s.blacklist.len());
    lemma_filter_keeps_all(s.blacklist, entry_id_other_than(id));
}

/// After a direct delete no entry carries the id, and every entry with another
/// id is still there.
pub proof fn lemma_delete_removes_exactly_id(s: GuardView, id: i32)
    ensures
        forall|i: int|
            0 <= i < step(s, Message::DeleteDomain(id)).blacklist.len() ==> (#[trigger] step(
                s,
                Message::DeleteDomain(id),
            ).blacklist[i]).id != id,
        forall|i: int|
            0 <= i < s.blacklist.len() && s.blacklist[i].id != id ==> step(
                s,
                Message::DeleteDomain(id),
            ).blacklist.contains(#[trigger] s.blacklist[i]),
{
    let p = entry_id_other_than(id);
    assert forall|i: int| 0 <= i < s.blacklist.filter(p).len() implies (
    #[trigger] s.blacklist.filter(p)[i]).id != id by {
        assert(p(s.blacklist.filter(p)[i]));
    }
    assert forall|i: int| 0 <= i < s.blacklist.len() && s.blacklist[i].id != id implies s.blacklist.filter(p).contains(
        #[trigger] s.blacklist[i],
    ) by {
        assert(p(s.blacklist[i]));
    }
}

/// Only adding, deleting directly and saving the edit dialog change the
/// blacklist; every other message leaves it as it is.
pub proof fn lemma_blacklist_changes_only_by_add_delete_save(s: GuardView, m: Message)
    requires
        !(m is AddDomain),
        !(m is DeleteDomain),
        !(m is CloseEditPopup),
    ensures
        step(s, m).blacklist == s.blacklist,
{
}

/// Only typing in the password field changes the password.
pub proof fn lemma_password_changes_only_by_typing(s: GuardView, m: Message)
    requires
        !(m is PasswordChanged),
    ensures
        step(s, m).password_admin == s.password_admin,
{
}

/// The window is asked to close only on `CloseWindow` and to minimize only on
/// `MinimizeWindow`; every other message leaves the window alone.
pub proof fn lemma_window_actions(m: Message)
    ensures
        (action_of(m) == WindowAction::Close) <==> (m is CloseWindow),
        (action_of(m) == WindowAction::Minimize) <==> (m is MinimizeWindow),
        (action_of(m) == WindowAction::Nothing) <==> !(m is CloseWindow || m is MinimizeWindow),
{
}

/// Closing or minimizing the window leaves the state as it is.
pub proof fn lemma_window_messages_keep_state(s: GuardView)
    ensures
        step(s, Message::CloseWindow) == s,
        step(s, Message::MinimizeWindow) == s,
{
}

/// The guard's switch: starting leaves it running and stopping leaves it
/// stopped, whatever it was before; pressing either twice is as pressing it
/// once, and a start followed by a stop is as a stop alone.
pub proof fn lemma_guard_switch(s: GuardView)
    ensures
        step(s, Message::StartGuard).is_running,
        !step(s, Message::StopGuard).is_running,
        step(step(s, Message::StartGuard), Message::StartGuard) == step(s, Message::StartGuard),
        step(step(s, Message::StopGuard), Message::StopGuard) == step(s, Message::StopGuard),
        step(step(s, Message::StartGuard), Message::StopGuard) == step(s, Message::StopGuard),
        step(step(s, Message::StopGuard), Message::StartGuard) == step(s, Message::StartGuard),
        step(s, Message::StartGuard).blacklist == s.blacklist,
        step(s, Message::StopGuard).blacklist == s.blacklist,
{
    assert(step(step(s, Message::StartGuard), Message::StopGuard) =~= step(s, Message::StopGuard));
    assert(step(step(s, Message::StopGuard), Message::StartGuard) =~= step(s, Message::StartGuard));
}

/// Clicking a page in the sidebar shows that page, whatever page was shown
/// before; the last click wins and nothing but the page changes.
pub proof fn lemma_change_page_shows_page(s: GuardView, p: Page)
    ensures
        step(s, Message::ChangePage(p)).current_page == p,
        forall|q: Page|
            step(step(s, Message::ChangePage(q)), Message::ChangePage(p)) == step(
                s,
                Message::ChangePage(p),
            ),
        step(s, Message::ChangePage(p)).blacklist == s.blacklist,
        step(s, Message::ChangePage(p)).is_running == s.is_running,
        s.current_page == p ==> step(s, Message::ChangePage(p)) == s,
{
    assert forall|q: Page|
        step(step(s, Message::ChangePage(q)), Message::ChangePage(p)) == step(
            s,
            Message::ChangePage(p),
        ) by {
        assert(step(step(s, Message::ChangePage(q)), Message::ChangePage(p)) =~= step(
            s,
            Message::ChangePage(p),
        ));
    }
    if s.current_page == p {
        assert(step(s, Message::ChangePage(p)) =~= s);
    }
}

/// Deleting the selection removes, from the dialog's working copy as it is,
/// exactly the entries whose id is selected, keeping the others in order; it
/// empties the selection, allows saving and leaves the blacklist alone.
pub proof fn lemma_delete_selected_filters_working_copy(s: GuardView)
    ensures
        step(s, Message::DeleteSelected).temp_blacklist == s.temp_blacklist.filter(
            |e: EntryView| !s.selected_for_delete.contains(e.id),
        ),
        step(s, Message::DeleteSelected).selected_for_delete.len() == 0,
        step(s, Message::DeleteSelected).has_deleted,
        step(s, Message::DeleteSelected).blacklist == s.blacklist,
        forall|i: int|
            0 <= i < step(s, Message::DeleteSelected).temp_blacklist.len()
                ==> !s.selected_for_delete.contains(
                (#[trigger] step(s, Message::DeleteSelected).temp_blacklist[i]).id,
            ),
        forall|i: int|
            0 <= i < s.temp_blacklist.len() && !s.selected_for_delete.contains(
                s.temp_blacklist[i].id,
            ) ==> step(s, Message::DeleteSelected).temp_blacklist.contains(
                #[trigger] s.temp_blacklist[i],
            ),
{
    let p = |e: EntryView| !s.selected_for_delete.contains(e.id);
    assert(entry_id_not_in(s.selected_for_delete) =~= p);
    let out = s.temp_blacklist.filter(p);
    assert forall|i: int| 0 <= i < out.len() implies !s.selected_for_delete.contains(
        (#[trigger] out[i]).id,
    ) by {
        assert(p(out[i]));
    }
    assert forall|i: int|
        0 <= i < s.temp_blacklist.len() && !s.selected_for_delete.contains(
            s.temp_blacklist[i].id,
        ) implies out.contains(#[trigger] s.temp_blacklist[i]) by {
        assert(p(s.temp_blacklist[i]));
    }
}

/// Deletions in the edit dialog accumulate: after deleting `a` and then `b` in
/// two rounds, neither id is left in the working copy nor, once saved, in the
/// blacklist, and every other entry of the blacklist is still there.
pub proof fn lemma_dialog_deletions_accumulate(s: GuardView, a: i32, b: i32)
    ensures
        ({
            let t = step(
                step(
                    step(
                        step(step(s, Message::OpenEditPopup), Message::ToggleSelectDomain(a)),
                        Message::DeleteSelected,
                    ),
                    Message::ToggleSelectDomain(b),
                ),
                Message::DeleteSelected,
            );
            let saved = step(t, Message::CloseEditPopup);
            &&& forall|i: int|
                0 <= i < t.temp_blacklist.len() ==> (#[trigger] t.temp_blacklist[i]).id != a
                    && t.temp_blacklist[i].id != b
            &&& forall|i: int|
                0 <= i < saved.blacklist.len() ==> (#[trigger] saved.blacklist[i]).id != a
                    && saved.blacklist[i].id != b
            &&& forall|i: int|
                0 <= i < s.blacklist.len() && s.blacklist[i].id != a && s.blacklist[i].id != b
                    ==> saved.blacklist.contains(#[trigger] s.blacklist[i])
        }),
{
    let s1 = step(step(s, Message::OpenEditPopup), Message::ToggleSelectDomain(a));
    assert(s1.selected_for_delete =~= seq![a]);
    assert(s1.temp_blacklist == s.blacklist);
    lemma_delete_selected_filters_working_copy(s1);
    let s2 = step(s1, Message::DeleteSelected);
    let s3 = step(s2, Message::ToggleSelectDomain(b));
    assert(s3.selected_for_delete =~= seq![b]);
    lemma_delete_selected_filters_working_copy(s3);
    let t = step(s3, Message::DeleteSelected);
    assert(s3.temp_blacklist == s2.temp_blacklist);
    assert forall|i: int| 0 <= i < t.temp_blacklist.len() implies (
    #[trigger] t.temp_blacklist[i]).id != a && t.temp_blacklist[i].id != b by {
        let x = t.temp_blacklist[i];
        assert(!s3.selected_for_delete.contains(x.id));
        if x.id == b {
            assert(s3.selected_for_delete[0] == b);
        }
        assert(t.temp_blacklist.contains(x));
        let p = |e: EntryView| !s3.selected_for_delete.contains(e.id);
        assert(s3.temp_blacklist.filter(p).contains(x));
        assert(s2.temp_blacklist.contains(x));
        let j = choose|j: int| 0 <= j < s2.temp_blacklist.len() && s2.temp_blacklist[j] == x;
        assert(!s1.selected_for_delete.contains(s2.temp_blacklist[j].id));
        if x.id == a {
            assert(s1.selected_for_delete[0] == a);
        }
    }
    assert forall|i: int|
        0 <= i < s.blacklist.len() && s.blacklist[i].id != a && s.blacklist[i].id != b
            implies t.temp_blacklist.contains(#[trigger] s.blacklist[i]) by {
        let x = s.blacklist[i];
        if s1.selected_for_delete.contains(x.id) {
            let k = choose|k: int| 0 <= k < s1.selected_for_delete.len() && s1.selected_for_delete[k] == x.id;
            assert(k == 0);
        }
        assert(s1.temp_blacklist[i] == x);
        assert(s2.temp_blacklist.contains(x));
        let j = choose|j: int| 0 <= j < s2.temp_blacklist.len() && s2.temp_blacklist[j] == x;
        if s3.selected_for_delete.contains(x.id) {
            let k = choose|k: int| 0 <= k < s3.selected_for_delete.len() && s3.selected_for_delete[k] == x.id;
            assert(k == 0);
        }
        assert(s3.temp_blacklist[j] == x);
    }
}

/// What each message sets, stated over the state before it: typing fills the
/// input or the password, adding appends the typed domain with id one more than
/// the length, a direct delete keeps, in order, the entries with another id,
/// and opening, saving and cancelling the dialog move the lists as the user
/// expects.
pub proof fn lemma_message_effects(s: GuardView, t: String, id: i32)
    ensures
        step(s, Message::InputChanged(t)).new_domain == t@,
        step(s, Message::PasswordChanged(t)).password_admin == t@,
        s.new_domain.len() > 0 ==> step(s, Message::AddDomain).blacklist == s.blacklist.push(
            EntryView { id: (s.blacklist.len() + 1) as i32, domain: s.new_domain, hits: 0 },
        ),
        s.new_domain.len() > 0 ==> step(s, Message::AddDomain).new_domain.len() == 0,
        s.new_domain.len() == 0 ==> step(s, Message::AddDomain) == s,
        step(s, Message::DeleteDomain(id)).blacklist == s.blacklist.filter(
            |e: EntryView| e.id != id,
        ),
        step(s, Message::ToggleEditPassword).is_editing_password,
        !step(s, Message::SavePassword).is_editing_password,
        step(s, Message::OpenEditPopup).is_showing_edit_popup,
        step(s, Message::OpenEditPopup).temp_blacklist == s.blacklist,
        step(s, Message::OpenEditPopup).selected_for_delete.len() == 0,
        !step(s, Message::OpenEditPopup).has_deleted,
        !step(s, Message::CloseEditPopup).is_showing_edit_popup,
        step(s, Message::CloseEditPopup).blacklist == s.temp_blacklist,
        !step(s, Message::CloseEditPopup).has_deleted,
        !step(s, Message::CancelEdit).is_showing_edit_popup,
        step(s, Message::CancelEdit).temp_blacklist.len() == 0,
        !step(s, Message::CancelEdit).has_deleted,
        step(s, Message::CancelEdit).blacklist == s.blacklist,
{
    assert(entry_id_other_than(id) =~= (|e: EntryView| e.id != id));
}

/// Each field changes only through the messages that are about it; every
/// other message leaves it as it was.
pub proof fn lemma_message_frame(s: GuardView, m: Message)
    ensures
        !(m is InputChanged || m is AddDomain) ==> step(s, m).new_domain == s.new_domain,
        !(m is StartGuard || m is StopGuard) ==> step(s, m).is_running == s.is_running,
        !(m is ToggleEditPassword || m is SavePassword) ==> step(s, m).is_editing_password
            == s.is_editing_password,
        !(m is ChangePage) ==> step(s, m).current_page == s.current_page,
        !(m is OpenEditPopup || m is CloseEditPopup || m is CancelEdit) ==> step(
            s,
            m,
        ).is_showing_edit_popup == s.is_showing_edit_popup,
        !(m is OpenEditPopup || m is ToggleSelectDomain || m is DeleteSelected) ==> step(
            s,
            m,
        ).selected_for_delete == s.selected_for_delete,
        !(m is OpenEditPopup || m is CloseEditPopup || m is CancelEdit || m is DeleteSelected)
            ==> step(s, m).has_deleted == s.has_deleted,
        !(m is OpenEditPopup || m is CancelEdit || m is DeleteSelected) ==> step(
            s,
            m,
        ).temp_blacklist == s.temp_blacklist,
{
}

} // verus!
