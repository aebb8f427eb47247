//! The data of the guard application and the mathematical model of how it
//! reacts to each message.
use vstd::prelude::*;

verus! {

/// The pages of the application's sidebar.
#[derive(Clone, Copy, Debug, PartialEq, Eq, Structural)]
pub enum Page {
    Overview,
    Setup,
    Security,
}

/// One blocked domain, with the number of times it was hit.
#[derive(Clone, Debug)]
pub struct BlacklistEntry {
    pub id: i32,
    pub domain: String,
    pub hits: i32,
}

/// The abstract value of a [`BlacklistEntry`]: its domain as a sequence of characters.
pub struct EntryView {
    pub id: i32,
    pub domain: Seq<char>,
    pub hits: i32,
}

impl View for BlacklistEntry {
    type V = EntryView;

    open spec fn view(&self) -> EntryView {
        EntryView { id: self.id, domain: self.domain@, hits: self.hits }
    }
}

/// The abstract value of a list of entries.
pub open spec fn entries_view(v: Seq<BlacklistEntry>) -> Seq<EntryView> {
    v.map_values(|e: BlacklistEntry| e@)
}

/// Everything the user can do in the application.
#[derive(Clone, Debug)]
pub enum Message {
    InputChanged(String),
    PasswordChanged(String),
    AddDomain,
    DeleteDomain(i32),
    StartGuard,
    StopGuard,
    ToggleEditPassword,
    SavePassword,
    ChangePage(Page),
    CloseWindow,
    MinimizeWindow,
    OpenEditPopup,
    CloseEditPopup,
    CancelEdit,
    ToggleSelectDomain(i32),
    DeleteSelected,
}

/// What the window around the application has to do after a message.
#[derive(Clone, Copy, Debug, PartialEq, Eq, Structural)]
pub enum WindowAction {
    Nothing,
    Close,
    Minimize,
}

/// The abstract state of the application.
#[verifier::ext_equal]
pub struct GuardView {
    pub password_admin: Seq<char>,
    pub is_running: bool,
    pub is_editing_password: bool,
    pub new_domain: Seq<char>,
    pub blacklist: Seq<EntryView>,
    pub temp_blacklist: Seq<EntryView>,
    pub current_page: Page,
    pub is_showing_edit_popup: bool,
    pub selected_for_delete: Seq<i32>,
    pub has_deleted: bool,
}

/// The state in which the application starts.
pub open spec fn initial_view() -> GuardView {
    GuardView {
        password_admin: "admin123"@,
        is_running: false,
        is_editing_password: false,
        new_domain: Seq::empty(),
        blacklist: seq![
            EntryView { id: 1, domain: "situs-terlarang.com"@, hits: 0 },
            EntryView { id: 2, domain: "judislot.net"@, hits: 12 },
        ],
        temp_blacklist: Seq::empty(),
        current_page: Page::Overview,
        is_showing_edit_popup: false,
        selected_for_delete: Seq::empty(),
        has_deleted: false,
    }
}

/// A well-formed state: no id is selected twice.
pub open spec fn wf(s: GuardView) -> bool {
    s.selected_for_delete.no_duplicates()
}

/// The id given to a domain added to a list of `len` entries: one more than the
/// length, as an `i32`.
pub open spec fn next_id(len: nat) -> i32 {
    (len + 1) as i32
}

/// Holds of the ids other than `id`.
pub open spec fn id_other_than(id: i32) -> spec_fn(i32) -> bool {
    |x: i32| x != id
}

/// Holds of the entries whose id is other than `id`.
pub open spec fn entry_id_other_than(id: i32) -> spec_fn(EntryView) -> bool {
    |e: EntryView| e.id != id
}

/// Holds of the entries whose id is not among `ids`.
pub open spec fn entry_id_not_in(ids: Seq<i32>) -> spec_fn(EntryView) -> bool {
    |e: EntryView| !ids.contains(e.id)
}

/// The entries whose id differs from `id`, in their order.
pub open spec fn without_id(s: Seq<EntryView>, id: i32) -> Seq<EntryView> {
    s.filter(entry_id_other_than(id))
}

/// The entries whose id is not among `ids`, in their order.
pub open spec fn without_ids(s: Seq<EntryView>, ids: Seq<i32>) -> Seq<EntryView> {
    s.filter(entry_id_not_in(ids))
}

/// The ids other than `id`, in their order.
pub open spec fn without_value(s: Seq<i32>, id: i32) -> Seq<i32> {
    s.filter(id_other_than(id))
}

/// The selection after clicking on `id`: a selected id is deselected, another is
/// appended.
pub open spec fn toggled(sel: Seq<i32>, id: i32) -> Seq<i32> {
    if sel.contains(id) {
        without_value(sel, id)
    } else {
        sel.push(id)
    }
}

/// How the state changes on a message.
pub open spec fn step(s: GuardView, m: Message) -> GuardView {
    match m {
        Message::InputChanged(t) => GuardView { new_domain: t@, ..s },
        Message::PasswordChanged(t) => GuardView { password_admin: t@, ..s },
        Message::AddDomain => {
            if s.new_domain.len() == 0 {
                s
            } else {
                GuardView {
                    blacklist: s.blacklist.push(
                        EntryView { id: next_id(s.blacklist.len()), domain: s.new_domain, hits: 0 },
                    ),
                    new_domain: Seq::empty(),
                    ..s
                }
            }
        },
        Message::DeleteDomain(id) => GuardView { blacklist: without_id(s.blacklist, id), ..s },
        Message::StartGuard => GuardView { is_running: true, ..s },
        Message::StopGuard => GuardView { is_running: false, ..s },
        Message::ToggleEditPassword => GuardView { is_editing_password: true, ..s },
        Message::SavePassword => GuardView { is_editing_password: false, ..s },
        Message::ChangePage(p) => GuardView { current_page: p, ..s },
        Message::CloseWindow => s,
        Message::MinimizeWindow => s,
        Message::OpenEditPopup => GuardView {
            is_showing_edit_popup: true,
            has_deleted: false,
            selected_for_delete: Seq::empty(),
            temp_blacklist: s.blacklist,
            ..s
        },
        Message::CloseEditPopup => GuardView {
            blacklist: s.temp_blacklist,
            is_showing_edit_popup: false,
            has_deleted: false,
            ..s
        },
        Message::CancelEdit => GuardView {
            is_showing_edit_popup: false,
            temp_blacklist: Seq::empty(),
            has_deleted: false,
            ..s
        },
        Message::ToggleSelectDomain(id) => GuardView {
            selected_for_delete: toggled(s.selected_for_delete, id),
            ..s
        },
        Message::DeleteSelected => GuardView {
            temp_blacklist: without_ids(s.temp_blacklist, s.selected_for_delete),
            selected_for_delete: Seq::empty(),
            has_deleted: true,
            ..s
        },
    }
}

/// What the window has to do after a message.
pub open spec fn action_of(m: Message) -> WindowAction {
    match m {
        Message::CloseWindow => WindowAction::Close,
        Message::MinimizeWindow => WindowAction::Minimize,
        _ => WindowAction::Nothing,
    }
}

/// The state after a sequence of messages, applied in order.
pub open spec fn run(s: GuardView, ms: Seq<Message>) -> GuardView
    decreases ms.len(),
{
    if ms.len() == 0 {
        s
    } else {
        step(run(s, ms.drop_last()), ms.last())
    }
}

} // verus!
