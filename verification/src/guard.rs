//! The application's state and the function that applies a message to it.
use vstd::prelude::*;
use crate::lists::{contains_id, copy_entries, entries_without_id, entries_without_ids, ids_without};
use crate::model::{
    action_of, entries_view, initial_view, step, wf, BlacklistEntry, EntryView, GuardView, Message,
    Page,
    WindowAction,
};

verus! {

/// The state of the guard application.
pub struct Guard {
    password_admin: String,
    is_running: bool,
    is_editing_password: bool,
    new_domain: String,
    blacklist: Vec<BlacklistEntry>,
    temp_blacklist: Vec<BlacklistEntry>,
    current_page: Page,
    is_showing_edit_popup: bool,
    selected_for_delete: Vec<i32>,
    has_deleted: bool,
}

impl View for Guard {
    type V = GuardView;

    closed spec fn view(&self) -> GuardView {
        GuardView {
            password_admin: self.password_admin@,
            is_running: self.is_running,
            is_editing_password: self.is_editing_password,
            new_domain: self.new_domain@,
            blacklist: entries_view(self.blacklist@),
            temp_blacklist: entries_view(self.temp_blacklist@),
            current_page: self.current_page,
            is_showing_edit_popup: self.is_showing_edit_popup,
            selected_for_delete: self.selected_for_delete@,
            has_deleted: self.has_deleted,
        }
    }
}

impl Default for Guard {
    /// The starting state: password "admin123", the guard stopped, the overview
    /// page shown and two domains on the blacklist.
    fn default() -> (g: Self)
        ensures
            g@ == initial_view(),
            wf(g@),
            g@.password_admin == "admin123"@,
            !g@.is_running,
            !g@.is_editing_password,
            g@.new_domain.len() == 0,
            g@.blacklist == seq![
                EntryView { id: 1, domain: "situs-terlarang.com"@, hits: 0 },
                EntryView { id: 2, domain: "judislot.net"@, hits: 12 },
            ],
            g@.temp_blacklist.len() == 0,
            g@.current_page == Page::Overview,
            !g@.is_showing_edit_popup,
            g@.selected_for_delete.len() == 0,
            !g@.has_deleted,
    {
        let mut blacklist: Vec<BlacklistEntry> = Vec::new();
        blacklist.push(
            BlacklistEntry { id: 1, domain: String::from_str("situs-terlarang.com"), hits: 0 },
        );
        blacklist.push(BlacklistEntry { id: 2, domain: String::from_str("judislot.net"), hits: 12 });
        let g = Guard {
            password_admin: String::from_str("admin123"),
            is_running: false,
            is_editing_password: false,
            new_domain: String::new(),
            blacklist,
            temp_blacklist: Vec::new(),
            current_page: Page::Overview,
            is_showing_edit_popup: false,
            selected_for_delete: Vec::new(),
            has_deleted: false,
        };
        assert(g@ =~= initial_view());
        g
    }
}

impl Guard {
    pub(crate) fn page(&self) -> (p: Page)
        ensures
            p == self@.current_page,
    {
        self.current_page
    }

    pub(crate) fn running(&self) -> (b: bool)
        ensures
            b == self@.is_running,
    {
        self.is_running
    }

    pub(crate) fn editing_password(&self) -> (b: bool)
        ensures
            b == self@.is_editing_password,
    {
        self.is_editing_password
    }

    pub(crate) fn dialog_open(&self) -> (b: bool)
        ensures
            b == self@.is_showing_edit_popup,
    {
        self.is_showing_edit_popup
    }

    pub(crate) fn deleted_in_dialog(&self) -> (b: bool)
        ensures
            b == self@.has_deleted,
    {
        self.has_deleted
    }

    pub(crate) fn password(&self) -> (r: String)
        ensures
            r@ == self@.password_admin,
    {
        self.password_admin.clone()
    }

    pub(crate) fn typed_domain(&self) -> (r: String)
        ensures
            r@ == self@.new_domain,
    {
        self.new_domain.clone()
    }

    pub(crate) fn entries(&self) -> (r: &Vec<BlacklistEntry>)
        ensures
            r.len() == self@.blacklist.len(),
            forall|j: int| 0 <= j < r.len() ==> #[trigger] r@[j]@ == self@.blacklist[j],
    {
        &self.blacklist
    }

    pub(crate) fn working_copy(&self) -> (r: &Vec<BlacklistEntry>)
        ensures
            r.len() == self@.temp_blacklist.len(),
            forall|j: int| 0 <= j < r.len() ==> #[trigger] r@[j]@ == self@.temp_blacklist[j],
    {
        &self.temp_blacklist
    }

    pub(crate) fn selection(&self) -> (r: &Vec<i32>)
        ensures
            r@ == self@.selected_for_delete,
    {
        &self.selected_for_delete
    }

    /// The number of entries on the blacklist.
    pub fn blacklist_len(&self) -> (n: usize)
        ensures
            n == self@.blacklist.len(),
    {
        self.blacklist.len()
    }

    /// Applies one message to the state and says what the window has to do.
    ///
    /// Adding a domain takes one more than the blacklist's length as its id;
    /// that sum must fit in a `usize`.
    pub fn update(&mut self, message: Message) -> (action: WindowAction)
        requires
            message is AddDomain ==> old(self)@.blacklist.len() < usize::MAX,
        ensures
            final(self)@ == step(old(self)@, message),
            action == action_of(message),
            wf(old(self)@) ==> wf(final(self)@),
            (action == WindowAction::Close) <==> (message is CloseWindow),
            (action == WindowAction::Minimize) <==> (message is MinimizeWindow),
            message is StartGuard ==> final(self)@.is_running,
            message is StopGuard ==> !final(self)@.is_running,
            forall|p: Page| message == Message::ChangePage(p) ==> final(self)@.current_page == p,
            message is DeleteSelected ==> final(self)@.temp_blacklist == old(
                self,
            )@.temp_blacklist.filter(|e: EntryView| !old(self)@.selected_for_delete.contains(e.id)),
            message is DeleteSelected ==> final(self)@.selected_for_delete.len() == 0,
            message is CloseEditPopup ==> final(self)@.blacklist == old(self)@.temp_blacklist,
            message is OpenEditPopup ==> final(self)@.temp_blacklist == old(self)@.blacklist,
    {
        let ghost pre = self@;
        let ghost m = message;
        let action = match message {
            Message::InputChanged(s) => {
                self.new_domain = s;
                WindowAction::Nothing
            },
            Message::PasswordChanged(s) => {
                self.password_admin = s;
                WindowAction::Nothing
            },
            Message::AddDomain => {
                if !self.new_domain.as_str().is_empty() {
                    let n = self.blacklist.len();
                    let id = #[verifier::truncate] ((n + 1) as i32);
                    let domain = self.new_domain.clone();
                    let entry = BlacklistEntry { id, domain, hits: 0 };
                    proof {
                        assert(entries_view(self.blacklist@.push(entry)) =~= entries_view(
                            self.blacklist@,
                        ).push(entry@));
                    }
                    self.blacklist.push(entry);
                    self.new_domain = String::new();
                }
                WindowAction::Nothing
            },
            Message::DeleteDomain(id) => {
                self.blacklist = entries_without_id(&self.blacklist, id);
                WindowAction::Nothing
            },
            Message::StartGuard => {
                self.is_running = true;
                WindowAction::Nothing
            },
            Message::StopGuard => {
                self.is_running = false;
                WindowAction::Nothing
            },
            Message::ToggleEditPassword => {
                self.is_editing_password = true;
                WindowAction::Nothing
            },
            Message::SavePassword => {
                self.is_editing_password = false;
                WindowAction::Nothing
            },
            Message::ChangePage(p) => {
                self.current_page = p;
                WindowAction::Nothing
            },
            Message::CloseWindow => WindowAction::Close,
            Message::MinimizeWindow => WindowAction::Minimize,
            Message::OpenEditPopup => {
                self.is_showing_edit_popup = true;
                self.has_deleted = false;
                self.selected_for_delete = Vec::new();
                self.temp_blacklist = copy_entries(&self.blacklist);
                WindowAction::Nothing
            },
            Message::CloseEditPopup => {
                self.blacklist = copy_entries(&self.temp_blacklist);
                self.is_showing_edit_popup = false;
                self.has_deleted = false;
                WindowAction::Nothing
            },
            Message::CancelEdit => {
                self.is_showing_edit_popup = false;
                self.temp_blacklist = Vec::new();
                self.has_deleted = false;
                WindowAction::Nothing
            },
            Message::ToggleSelectDomain(id) => {
                if contains_id(&self.selected_for_delete, id) {
                    self.selected_for_delete = ids_without(&self.selected_for_delete, id);
                } else {
                    self.selected_for_delete.push(id);
                }
                WindowAction::Nothing
            },
            Message::DeleteSelected => {
                self.temp_blacklist = entries_without_ids(
                    &self.temp_blacklist,
                    &self.selected_for_delete,
                );
                self.selected_for_delete = Vec::new();
                self.has_deleted = true;
                WindowAction::Nothing
            },
        };
        assert(self@ =~= step(pre, m));
        proof {
            if wf(pre) {
                crate::laws::lemma_step_keeps_wf(pre, m);
            }
            crate::laws::lemma_window_actions(m);
            crate::laws::lemma_guard_switch(pre);
            if m is ChangePage {
                crate::laws::lemma_change_page_shows_page(pre, m->ChangePage_0);
            }
            crate::laws::lemma_delete_selected_filters_working_copy(pre);
        }
        action
    }
}

} // verus!
