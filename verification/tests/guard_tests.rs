use care_children::guard::Guard;
use care_children::model::{Message, Page, WindowAction};

fn domains(g: &Guard) -> Vec<String> {
    g.setup().rows.iter().map(|r| r.domain.clone()).collect()
}

fn hits(g: &Guard) -> Vec<i32> {
    g.setup().rows.iter().map(|r| r.hits).collect()
}

/// The ids of the blacklist, read through a freshly opened and then cancelled
/// edit dialog.
fn ids(g: &mut Guard) -> Vec<i32> {
    g.update(Message::OpenEditPopup);
    let ids = g.edit_dialog().rows.iter().map(|r| r.id).collect();
    g.update(Message::CancelEdit);
    ids
}

fn add(g: &mut Guard, domain: &str) -> WindowAction {
    g.update(Message::InputChanged(domain.to_string()));
    g.update(Message::AddDomain)
}

fn s(x: &str) -> String {
    x.to_string()
}

#[test]
fn default_state() {
    let mut g = Guard::default();
    assert_eq!(g.current_page(), Page::Overview);
    assert_eq!(domains(&g), vec![s("situs-terlarang.com"), s("judislot.net")]);
    assert_eq!(hits(&g), vec![0, 12]);
    assert_eq!(ids(&mut g), vec![1, 2]);
    assert_eq!(g.setup().new_domain, "");
    assert!(!g.setup().show_edit_dialog);
    assert_eq!(g.security().password, "admin123");
    assert!(!g.security().editable);
    assert!(!g.overview().running);
    assert_eq!(g.blacklist_len(), 2);
}

#[test]
fn add_domain_appends_with_next_id() {
    let mut g = Guard::default();
    assert_eq!(add(&mut g, "example.com"), WindowAction::Nothing);
    assert_eq!(domains(&g), vec![s("situs-terlarang.com"), s("judislot.net"), s("example.com")]);
    assert_eq!(hits(&g), vec![0, 12, 0]);
    assert_eq!(ids(&mut g), vec![1, 2, 3]);
    assert_eq!(g.setup().new_domain, "");
}

#[test]
fn add_empty_domain_does_nothing() {
    let mut g = Guard::default();
    add(&mut g, "");
    assert_eq!(g.blacklist_len(), 2);
    g.update(Message::AddDomain);
    assert_eq!(g.blacklist_len(), 2);
}

#[test]
fn typed_text_is_kept_until_added() {
    let mut g = Guard::default();
    g.update(Message::InputChanged(s("abc")));
    assert_eq!(g.setup().new_domain, "abc");
    g.update(Message::InputChanged(s("abcd")));
    assert_eq!(g.setup().new_domain, "abcd");
    assert_eq!(g.blacklist_len(), 2);
}

#[test]
fn delete_domain_removes_that_id() {
    let mut g = Guard::default();
    g.update(Message::DeleteDomain(1));
    assert_eq!(domains(&g), vec![s("judislot.net")]);
    assert_eq!(ids(&mut g), vec![2]);
}

#[test]
fn delete_unknown_id_keeps_list() {
    let mut g = Guard::default();
    g.update(Message::DeleteDomain(42));
    assert_eq!(domains(&g), vec![s("situs-terlarang.com"), s("judislot.net")]);
}

#[test]
fn delete_removes_every_entry_with_the_id() {
    // After a delete, the next added domain gets an id that is already taken.
    let mut g = Guard::default();
    g.update(Message::DeleteDomain(1));
    add(&mut g, "x.org");
    assert_eq!(ids(&mut g), vec![2, 2]);
    g.update(Message::DeleteDomain(2));
    assert_eq!(g.blacklist_len(), 0);
}

#[test]
fn delete_undoes_add() {
    let mut g = Guard::default();
    add(&mut g, "new.net");
    g.update(Message::DeleteDomain(3));
    assert_eq!(domains(&g), vec![s("situs-terlarang.com"), s("judislot.net")]);
    assert_eq!(hits(&g), vec![0, 12]);
}

#[test]
fn start_and_stop_guard() {
    let mut g = Guard::default();
    let o = g.overview();
    assert!(o.start_enabled && !o.stop_enabled);
    assert_eq!(o.title, "Perlindungan Mati");
    assert_eq!(o.description, "Sistem saat ini tidak mengawasi aktivitas.");
    assert_eq!(o.icon_path, "assets/off.svg");
    assert_eq!(o.banner_path, "assets/2.png");
    g.update(Message::StartGuard);
    let o = g.overview();
    assert!(o.running && !o.start_enabled && o.stop_enabled);
    assert_eq!(o.title, "Sistem Aktif");
    assert_eq!(o.description, "Seluruh browser sedang dalam pengawasan.");
    assert_eq!(o.icon_path, "assets/on.svg");
    assert_eq!(o.banner_path, "assets/1.png");
    g.update(Message::StartGuard);
    assert!(g.overview().running);
    g.update(Message::StopGuard);
    assert!(!g.overview().running);
}

#[test]
fn change_page_selects_menu_entry() {
    let mut g = Guard::default();
    assert!(g.is_page_selected(Page::Overview));
    g.update(Message::ChangePage(Page::Security));
    assert_eq!(g.current_page(), Page::Security);
    assert!(g.is_page_selected(Page::Security));
    assert!(!g.is_page_selected(Page::Overview));
    assert!(!g.is_page_selected(Page::Setup));
    g.update(Message::ChangePage(Page::Setup));
    assert_eq!(g.current_page(), Page::Setup);
}

#[test]
fn window_messages_ask_the_window_and_keep_state() {
    let mut g = Guard::default();
    assert_eq!(g.update(Message::CloseWindow), WindowAction::Close);
    assert_eq!(g.update(Message::MinimizeWindow), WindowAction::Minimize);
    assert_eq!(g.update(Message::StartGuard), WindowAction::Nothing);
    assert_eq!(domains(&g), vec![s("situs-terlarang.com"), s("judislot.net")]);
    assert_eq!(g.current_page(), Page::Overview);
}

#[test]
fn password_editing() {
    let mut g = Guard::default();
    let sec = g.security();
    assert_eq!(sec.button_label, "Update Password");
    assert_eq!(sec.hint, "Password saat ini terkunci. Klik Update untuk mengubah.");
    assert!(matches!(sec.button_message, Message::ToggleEditPassword));
    g.update(Message::ToggleEditPassword);
    let sec = g.security();
    assert!(sec.editable);
    assert_eq!(sec.button_label, "Simpan Password");
    assert_eq!(sec.hint, "Sedang dalam mode edit. Tekan Simpan untuk memperbarui.");
    assert!(matches!(sec.button_message, Message::SavePassword));
    g.update(Message::PasswordChanged(s("rahasia")));
    g.update(Message::SavePassword);
    let sec = g.security();
    assert!(!sec.editable);
    assert_eq!(sec.password, "rahasia");
}

#[test]
fn edit_dialog_starts_from_blacklist() {
    let mut g = Guard::default();
    g.update(Message::OpenEditPopup);
    assert!(g.setup().show_edit_dialog);
    let d = g.edit_dialog();
    assert_eq!(d.rows.len(), 2);
    assert_eq!(d.rows[0].domain, "situs-terlarang.com");
    assert_eq!(d.rows[1].id, 2);
    assert!(!d.rows[0].shaded && d.rows[1].shaded);
    assert!(!d.rows[0].selected && !d.rows[1].selected);
    assert!(!d.delete_enabled);
    assert!(!d.save_enabled);
}

#[test]
fn toggle_twice_restores_selection() {
    let mut g = Guard::default();
    g.update(Message::OpenEditPopup);
    g.update(Message::ToggleSelectDomain(2));
    let d = g.edit_dialog();
    assert!(d.rows[1].selected && !d.rows[0].selected);
    assert!(d.delete_enabled);
    g.update(Message::ToggleSelectDomain(2));
    let d = g.edit_dialog();
    assert!(!d.rows[1].selected);
    assert!(!d.delete_enabled);
}

#[test]
fn delete_selected_then_save_commits() {
    let mut g = Guard::default();
    g.update(Message::OpenEditPopup);
    g.update(Message::ToggleSelectDomain(1));
    g.update(Message::DeleteSelected);
    let d = g.edit_dialog();
    assert_eq!(d.rows.len(), 1);
    assert_eq!(d.rows[0].domain, "judislot.net");
    assert!(d.save_enabled);
    assert!(!d.delete_enabled);
    // not yet saved
    assert_eq!(g.blacklist_len(), 2);
    g.update(Message::CloseEditPopup);
    assert!(!g.setup().show_edit_dialog);
    assert_eq!(domains(&g), vec![s("judislot.net")]);
}

#[test]
fn cancelled_edit_keeps_blacklist() {
    let mut g = Guard::default();
    g.update(Message::OpenEditPopup);
    g.update(Message::ToggleSelectDomain(1));
    g.update(Message::ToggleSelectDomain(2));
    g.update(Message::DeleteSelected);
    assert_eq!(g.edit_dialog().rows.len(), 0);
    g.update(Message::CancelEdit);
    assert!(!g.setup().show_edit_dialog);
    assert_eq!(domains(&g), vec![s("situs-terlarang.com"), s("judislot.net")]);
    assert_eq!(g.edit_dialog().rows.len(), 0);
}

#[test]
fn save_without_deleting_keeps_blacklist() {
    let mut g = Guard::default();
    g.update(Message::OpenEditPopup);
    g.update(Message::ToggleSelectDomain(1));
    g.update(Message::CloseEditPopup);
    assert_eq!(domains(&g), vec![s("situs-terlarang.com"), s("judislot.net")]);
    assert_eq!(hits(&g), vec![0, 12]);
}

#[test]
fn dialog_delete_matches_direct_delete() {
    let mut a = Guard::default();
    add(&mut a, "third.id");
    let mut b = Guard::default();
    add(&mut b, "third.id");
    a.update(Message::OpenEditPopup);
    a.update(Message::ToggleSelectDomain(2));
    a.update(Message::DeleteSelected);
    a.update(Message::CloseEditPopup);
    b.update(Message::DeleteDomain(2));
    assert_eq!(domains(&a), domains(&b));
    assert_eq!(ids(&mut a), ids(&mut b));
    assert_eq!(domains(&a), vec![s("situs-terlarang.com"), s("third.id")]);
}

#[test]
fn reopening_dialog_clears_selection_and_flag() {
    let mut g = Guard::default();
    g.update(Message::OpenEditPopup);
    g.update(Message::ToggleSelectDomain(1));
    g.update(Message::DeleteSelected);
    g.update(Message::CancelEdit);
    g.update(Message::OpenEditPopup);
    let d = g.edit_dialog();
    assert_eq!(d.rows.len(), 2);
    assert!(!d.save_enabled && !d.delete_enabled);
}

#[test]
fn setup_rows_alternate_shading() {
    let mut g = Guard::default();
    add(&mut g, "c.com");
    let rows = g.setup().rows;
    let shaded: Vec<bool> = rows.iter().map(|r| r.shaded).collect();
    assert_eq!(shaded, vec![true, false, true]);
}
