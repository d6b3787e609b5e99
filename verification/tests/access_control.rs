use casper_node_logic::access_control::{AccessControl, AccessControlState};
use casper_node_logic::hash32::Hash32;

fn addr(b: u8) -> Hash32 {
    Hash32::new([b; 32])
}

#[test]
fn default_state_holds_no_roles() {
    let state = AccessControlState::default();
    assert_eq!(state.prefix, "roles");
    assert!(!state.has_role(addr(1), addr(9)));
}

#[test]
fn grant_then_has_role() {
    let mut state = AccessControlState::default();
    state.grant_role(addr(1), addr(9));
    assert!(state.has_role(addr(1), addr(9)));
    assert!(!state.has_role(addr(1), addr(8)));
    assert!(!state.has_role(addr(2), addr(9)));
    // Granting twice keeps one copy.
    state.grant_role(addr(1), addr(9));
    assert_eq!(state.roles.len(), 1);
    assert_eq!(state.roles[0].1.roles.len(), 1);
    state.grant_role(addr(1), addr(8));
    assert!(state.has_role(addr(1), addr(8)));
}

#[test]
fn role_list_is_named_after_the_account() {
    let mut state = AccessControlState::default();
    state.grant_role(Hash32::new([0xab; 32]), addr(9));
    assert_eq!(state.roles[0].1.name, format!("roles-{}", "ab".repeat(32)));
}

#[test]
fn revoke_removes_only_that_role() {
    let mut state = AccessControlState::default();
    state.grant_role(addr(1), addr(9));
    state.grant_role(addr(1), addr(8));
    state.grant_role(addr(2), addr(9));
    state.revoke_role(addr(1), addr(9));
    assert!(!state.has_role(addr(1), addr(9)));
    assert!(state.has_role(addr(1), addr(8)));
    assert!(state.has_role(addr(2), addr(9)));
    // Revoking what is not held changes nothing.
    state.revoke_role(addr(3), addr(9));
    assert!(state.has_role(addr(2), addr(9)));
}

#[test]
fn state_is_its_own_access_control() {
    let mut state = AccessControlState::default();
    AccessControl::grant_role(&mut state, addr(3), addr(4));
    assert!(AccessControl::has_role(&state, addr(3), addr(4)));
    AccessControl::revoke_role(&mut state, addr(3), addr(4));
    assert!(!AccessControl::has_role(&state, addr(3), addr(4)));
}
