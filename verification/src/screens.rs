//! What each screen of the application shows and which of its controls are
//! active, computed from the state; drawing it is left to the window.
use vstd::prelude::*;
use crate::guard::Guard;
use crate::lists::contains_id;
use crate::model::{EntryView, Message, Page};

verus! {

/// The overview page: whether the guard runs, its texts and images, and which
/// of the two switch buttons can be pressed.
pub struct OverviewScreen {
    pub running: bool,
    pub title: &'static str,
    pub description: &'static str,
    pub icon_path: &'static str,
    pub banner_path: &'static str,
    pub start_enabled: bool,
    pub stop_enabled: bool,
}

/// One line of the blacklist table of the management page.
pub struct SetupRow {
    pub domain: String,
    pub hits: i32,
    /// Lines at even positions are drawn with a tinted background.
    pub shaded: bool,
}

/// The management page: the text typed for a new domain, the table of the
/// blacklist, and whether the edit dialog is drawn over it.
pub struct SetupScreen {
    pub new_domain: String,
    pub rows: Vec<SetupRow>,
    pub show_edit_dialog: bool,
}

/// One line of the edit dialog.
pub struct EditRow {
    pub id: i32,
    pub domain: String,
    pub selected: bool,
    /// Lines at odd positions are drawn with a tinted background.
    pub shaded: bool,
}

/// The edit dialog: the working copy of the blacklist with the selection, and
/// which of its buttons can be pressed.
pub struct EditDialog {
    pub rows: Vec<EditRow>,
    pub delete_enabled: bool,
    pub save_enabled: bool,
}

/// The security page: the password field, whether it can be edited, and the
/// button that switches between editing and saving.
pub struct SecurityScreen {
    pub password: String,
    pub editable: bool,
    pub hint: &'static str,
    pub button_label: &'static str,
    pub button_message: Message,
}

/// A line of the management table shows the entry at its position.
pub open spec fn setup_row_shows(row: SetupRow, e: EntryView, i: int) -> bool {
    &&& row.domain@ == e.domain
    &&& row.hits == e.hits
    &&& row.shaded == (i % 2 == 0)
}

/// A line of the edit dialog shows the entry at its position and whether its
/// id is selected.
pub open spec fn edit_row_shows(row: EditRow, e: EntryView, i: int, selection: Seq<i32>) -> bool {
    &&& row.id == e.id
    &&& row.domain@ == e.domain
    &&& row.selected == selection.contains(e.id)
    &&& row.shaded == (i % 2 != 0)
}

impl Guard {
    /// The page shown beside the sidebar.
    pub fn current_page(&self) -> (p: Page)
        ensures
            p == self@.current_page,
    {
        self.page()
    }

    /// Whether the sidebar button of `page` is drawn as the selected one.
    pub fn is_page_selected(&self, page: Page) -> (b: bool)
        ensures
            b == (self@.current_page == page),
    {
        self.page() == page
    }

    /// The overview page.
    pub fn overview(&self) -> (r: OverviewScreen)
        ensures
            r.running == self@.is_running,
            r.title@ == (if self@.is_running { "Sistem Aktif"@ } else { "Perlindungan Mati"@ }),
            r.description@ == (if self@.is_running {
                "Seluruh browser sedang dalam pengawasan."@
            } else {
                "Sistem saat ini tidak mengawasi aktivitas."@
            }),
            r.icon_path@ == (if self@.is_running { "assets/on.svg"@ } else { "assets/off.svg"@ }),
            r.banner_path@ == (if self@.is_running { "assets/1.png"@ } else { "assets/2.png"@ }),
            r.start_enabled == !self@.is_running,
            r.stop_enabled == self@.is_running,
    {
        let running = self.running();
        if running {
            OverviewScreen {
                running,
                title: "Sistem Aktif",
                description: "Seluruh browser sedang dalam pengawasan.",
                icon_path: "assets/on.svg",
                banner_path: "assets/1.png",
                start_enabled: false,
                stop_enabled: true,
            }
        } else {
            OverviewScreen {
                running,
                title: "Perlindungan Mati",
                description: "Sistem saat ini tidak mengawasi aktivitas.",
                icon_path: "assets/off.svg",
                banner_path: "assets/2.png",
                start_enabled: true,
                stop_enabled: false,
            }
        }
    }

    /// The management page.
    pub fn setup(&self) -> (r: SetupScreen)
        ensures
            r.new_domain@ == self@.new_domain,
            r.show_edit_dialog == self@.is_showing_edit_popup,
            r.rows@.len() == self@.blacklist.len(),
            forall|i: int|
                0 <= i < r.rows@.len() ==> setup_row_shows(#[trigger] r.rows@[i], self@.blacklist[i], i),
            forall|i: int|
                0 <= i < r.rows@.len() ==> (#[trigger] r.rows@[i]).domain@ == self@.blacklist[i].domain
                    && r.rows@[i].hits == self@.blacklist[i].hits && r.rows@[i].shaded == (i % 2 == 0),
    {
        let entries = self.entries();
        let mut rows: Vec<SetupRow> = Vec::new();
        let mut i: usize = 0;
        while i < entries.len()
            invariant
                i <= entries.len(),
                entries.len() == self@.blacklist.len(),
                forall|j: int| 0 <= j < entries.len() ==> #[trigger] entries@[j]@ == self@.blacklist[j],
                rows@.len() == i,
                forall|j: int|
                    0 <= j < i ==> setup_row_shows(#[trigger] rows@[j], self@.blacklist[j], j),
            decreases entries.len() - i,
        {
            let e = &entries[i];
            let row = SetupRow { domain: e.domain.clone(), hits: e.hits, shaded: i % 2 == 0 };
            assert(entries@[i as int]@ == self@.blacklist[i as int]);
            assert(setup_row_shows(row, self@.blacklist[i as int], i as int));
            rows.push(row);
            assert(rows@[i as int] == row);
            i += 1;
        }
        SetupScreen { new_domain: self.typed_domain(), rows, show_edit_dialog: self.dialog_open() }
    }

    /// The edit dialog.
    pub fn edit_dialog(&self) -> (r: EditDialog)
        ensures
            r.delete_enabled == (self@.selected_for_delete.len() > 0),
            r.save_enabled == self@.has_deleted,
            r.rows@.len() == self@.temp_blacklist.len(),
            forall|i: int|
                0 <= i < r.rows@.len() ==> edit_row_shows(
                    #[trigger] r.rows@[i],
                    self@.temp_blacklist[i],
                    i,
                    self@.selected_for_delete,
                ),
            forall|i: int|
                0 <= i < r.rows@.len() ==> (#[trigger] r.rows@[i]).selected
                    == self@.selected_for_delete.contains(self@.temp_blacklist[i].id),
            forall|i: int|
                0 <= i < r.rows@.len() ==> (#[trigger] r.rows@[i]).id == self@.temp_blacklist[i].id
                    && r.rows@[i].domain@ == self@.temp_blacklist[i].domain && r.rows@[i].shaded == (i
                    % 2 != 0),
    {
        let entries = self.working_copy();
        let selection = self.selection();
        let mut rows: Vec<EditRow> = Vec::new();
        let mut i: usize = 0;
        while i < entries.len()
            invariant
                i <= entries.len(),
                entries.len() == self@.temp_blacklist.len(),
                forall|j: int|
                    0 <= j < entries.len() ==> #[trigger] entries@[j]@ == self@.temp_blacklist[j],
                selection@ == self@.selected_for_delete,
                rows@.len() == i,
                forall|j: int|
                    0 <= j < i ==> edit_row_shows(
                        #[trigger] rows@[j],
                        self@.temp_blacklist[j],
                        j,
                        self@.selected_for_delete,
                    ),
            decreases entries.len() - i,
        {
            let e = &entries[i];
            let row = EditRow {
                id: e.id,
                domain: e.domain.clone(),
                selected: contains_id(selection, e.id),
                shaded: i % 2 != 0,
            };
            assert(entries@[i as int]@ == self@.temp_blacklist[i as int]);
            assert(edit_row_shows(row, self@.temp_blacklist[i as int], i as int, self@.selected_for_delete));
            rows.push(row);
            assert(rows@[i as int] == row);
            i += 1;
        }
        EditDialog {
            rows,
            delete_enabled: selection.len() > 0,
            save_enabled: self.deleted_in_dialog(),
        }
    }

    /// The security page.
    pub fn security(&self) -> (r: SecurityScreen)
        ensures
            r.password@ == self@.password_admin,
            r.editable == self@.is_editing_password,
            r.hint@ == (if self@.is_editing_password {
                "Sedang dalam mode edit. Tekan Simpan untuk memperbarui."@
            } else {
                "Password saat ini terkunci. Klik Update untuk mengubah."@
            }),
            r.button_label@ == (if self@.is_editing_password {
                "Simpan Password"@
            } else {
                "Update Password"@
            }),
            self@.is_editing_password ==> r.button_message is SavePassword,
            !self@.is_editing_password ==> r.button_message is ToggleEditPassword,
    {
        let editing = self.editing_password();
        let password = self.password();
        if editing {
            SecurityScreen {
                password,
                editable: true,
                hint: "Sedang dalam mode edit. Tekan Simpan untuk memperbarui.",
                button_label: "Simpan Password",
                button_message: Message::SavePassword,
            }
        } else {
            SecurityScreen {
                password,
                editable: false,
                hint: "Password saat ini terkunci. Klik Update untuk mengubah.",
                button_label: "Update Password",
                button_message: Message::ToggleEditPassword,
            }
        }
    }
}

} // verus!
