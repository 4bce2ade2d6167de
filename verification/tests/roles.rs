use livedoc::permission::{admission, resolve, roles_from_labels, strongest, user_has_access};
use livedoc::protocol::Event;
use livedoc::role::{same_text, Role};

fn labels(items: &[&str]) -> Vec<String> {
    items.iter().map(|s| s.to_string()).collect()
}

#[test]
fn labels_are_read_into_roles() {
    assert_eq!(Role::from_label("owner"), Role::Owner);
    assert_eq!(Role::from_label("editor"), Role::Editor);
    assert_eq!(Role::from_label("reader"), Role::Reader);
}

#[test]
fn any_other_label_grants_read_access_only() {
    assert_eq!(Role::from_label("read"), Role::Reader);
    assert_eq!(Role::from_label("viewer"), Role::Reader);
    assert_eq!(Role::from_label(""), Role::Reader);
    assert_eq!(Role::from_label("Owner"), Role::Reader);
    assert_eq!(Role::from_label("owner "), Role::Reader);
    assert_eq!(Role::from_label("admin"), Role::Reader);
}

#[test]
fn roles_give_their_labels() {
    assert_eq!(Role::Owner.label(), "owner");
    assert_eq!(Role::Editor.label(), "editor");
    assert_eq!(Role::Reader.label(), "read");
}

#[test]
fn label_of_a_role_reads_back_as_the_role() {
    for role in [Role::Owner, Role::Editor, Role::Reader] {
        assert_eq!(Role::from_label(&role.label()), role);
    }
}

#[test]
fn owners_and_editors_write_readers_do_not() {
    assert!(Role::Owner.can_write());
    assert!(Role::Editor.can_write());
    assert!(!Role::Reader.can_write());
}

#[test]
fn precedence_is_owner_editor_reader() {
    assert!(Role::Owner.outranks(Role::Editor));
    assert!(Role::Owner.outranks(Role::Reader));
    assert!(Role::Editor.outranks(Role::Reader));
    assert!(!Role::Editor.outranks(Role::Owner));
    assert!(!Role::Reader.outranks(Role::Owner));
    assert!(!Role::Reader.outranks(Role::Editor));
    assert!(!Role::Owner.outranks(Role::Owner));
    assert!(!Role::Reader.outranks(Role::Reader));
}

#[test]
fn stronger_picks_the_higher_role() {
    assert_eq!(Role::Reader.stronger(Role::Owner), Role::Owner);
    assert_eq!(Role::Owner.stronger(Role::Reader), Role::Owner);
    assert_eq!(Role::Editor.stronger(Role::Reader), Role::Editor);
    assert_eq!(Role::Reader.stronger(Role::Reader), Role::Reader);
}

#[test]
fn same_text_compares_contents() {
    assert!(same_text("owner", "owner"));
    assert!(!same_text("owner", "owne"));
    assert!(same_text("", ""));
    assert!(!same_text("é", "e"));
}

#[test]
fn strongest_of_no_grants_is_none() {
    assert_eq!(strongest(&vec![]), None);
}

#[test]
fn strongest_finds_the_highest_wherever_it_stands() {
    assert_eq!(strongest(&vec![Role::Reader, Role::Editor, Role::Reader]), Some(Role::Editor));
    assert_eq!(strongest(&vec![Role::Owner, Role::Editor]), Some(Role::Owner));
    assert_eq!(strongest(&vec![Role::Editor, Role::Owner]), Some(Role::Owner));
    assert_eq!(strongest(&vec![Role::Reader]), Some(Role::Reader));
}

#[test]
fn group_owner_grant_prevails_over_direct_reader_grant() {
    assert_eq!(resolve(&vec![Role::Reader], &vec![Role::Owner]), Some(Role::Owner));
    assert_eq!(
        resolve(&vec![Role::Editor, Role::Reader], &vec![Role::Reader, Role::Owner, Role::Editor]),
        Some(Role::Owner)
    );
    assert_eq!(
        user_has_access(&labels(&["reader"]), &labels(&["owner"])),
        Some(Role::Owner)
    );
}

#[test]
fn owner_outranks_editor_in_the_merge() {
    assert_eq!(
        user_has_access(&labels(&["editor"]), &labels(&["owner"])),
        Some(Role::Owner)
    );
    assert_eq!(
        user_has_access(&labels(&["owner"]), &labels(&["editor"])),
        Some(Role::Owner)
    );
}

#[test]
fn one_source_alone_decides_when_the_other_is_empty() {
    assert_eq!(resolve(&vec![Role::Editor], &vec![]), Some(Role::Editor));
    assert_eq!(resolve(&vec![], &vec![Role::Reader]), Some(Role::Reader));
}

#[test]
fn no_grant_in_either_source_is_no_access() {
    assert_eq!(resolve(&vec![], &vec![]), None);
    assert_eq!(user_has_access(&vec![], &vec![]), None);
}

#[test]
fn roles_from_labels_keeps_order_and_length() {
    assert_eq!(
        roles_from_labels(&labels(&["read", "owner", "editor", "x"])),
        vec![Role::Reader, Role::Owner, Role::Editor, Role::Reader]
    );
    assert_eq!(roles_from_labels(&vec![]), Vec::<Role>::new());
}

#[test]
fn admission_reports_the_resolved_role() {
    assert_eq!(
        admission(Some(labels(&["reader"])), Some(labels(&["editor"]))),
        Event::RoleGranted(Role::Editor)
    );
    assert_eq!(admission(Some(vec![]), Some(vec![])), Event::RoleMissing);
}

#[test]
fn admission_reports_a_failed_query_as_backend_failure() {
    assert_eq!(admission(None, Some(labels(&["owner"]))), Event::BackendFailed);
    assert_eq!(admission(Some(labels(&["owner"])), None), Event::BackendFailed);
    assert_eq!(admission(None, None), Event::BackendFailed);
    assert_eq!(admission(None, Some(vec![])), Event::BackendFailed);
}
