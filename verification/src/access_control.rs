//! Role-based access control for contracts: which roles each account holds.
//!
//! Each account's roles are kept in a list of their own, stored under the
//! name `roles-` followed by the account's address in lower-case hex.

use vstd::prelude::*;

use crate::hash32::Hash32;

verus! {

/// An account's address.
pub type Address = Hash32;

/// A role: a unique identifier of a permission or a set of permissions.
pub type Role = Hash32;

/// The prefix under which the roles are stored.
pub const ROLES_PREFIX: &'static str = "roles";

/// The lower-case hex digit of a nibble.
pub open spec fn hex_digit(n: int) -> char {
    if n < 10 {
        (48 + n) as char
    } else {
        (87 + n) as char
    }
}

/// The lower-case hex encoding of bytes: two digits per byte, high nibble first.
pub open spec fn hex_lower(bytes: Seq<u8>) -> Seq<char> {
    Seq::new(2 * bytes.len(), |i: int| if i % 2 == 0 { hex_digit(bytes[i / 2] as int / 16) } else { hex_digit(bytes[i / 2] as int % 16) })
}

/// Encodes bytes as lower-case hex.
///
/// Calls `base16::encode_lower`, which writes for every byte the digit of its
/// high nibble and then that of its low nibble, from `0123456789abcdef`.
#[verifier::external_body]
fn encode_lower(bytes: &[u8; 32]) -> (r: String)
    ensures
        r@ == hex_lower(bytes@),
{
    base16::encode_lower(bytes)
}

/// The name under which an account's roles are stored.
pub open spec fn roles_name(account: Address) -> Seq<char> {
    "roles-"@ + hex_lower(account.bytes@)
}

/// The roles an account holds, kept under their own storage name.
#[derive(Debug)]
pub struct RoleList {
    pub name: String,
    pub roles: Vec<Role>,
}

/// The roles of every account that has been granted one.
#[derive(Debug)]
pub struct AccessControlState {
    pub prefix: String,
    pub roles: Vec<(Address, RoleList)>,
}

impl Default for AccessControlState {
    fn default() -> (r: Self)
        ensures
            r.prefix@ == ROLES_PREFIX@,
            r.roles@.len() == 0,
    {
        AccessControlState { prefix: String::from_str(ROLES_PREFIX), roles: Vec::new() }
    }
}

/// The position of the entry of an account.
fn position(roles: &Vec<(Address, RoleList)>, account: &Address) -> (r: Option<usize>)
    ensures
        match r {
            Some(i) => i < roles@.len() && roles@[i as int].0 == *account && forall|k: int|
                0 <= k < i ==> (#[trigger] roles@[k]).0 != *account,
            None => forall|k: int| 0 <= k < roles@.len() ==> (#[trigger] roles@[k]).0 != *account,
        },
{
    let mut i: usize = 0;
    while i < roles.len()
        invariant
            i <= roles@.len(),
            forall|k: int| 0 <= k < i ==> (#[trigger] roles@[k]).0 != *account,
        decreases roles@.len() - i,
    {
        if roles[i].0.same_as(account) {
            return Some(i);
        }
        i += 1;
    }
    None
}

/// Whether the role is in the list.
fn contains_role(list: &Vec<Role>, role: &Role) -> (r: bool)
    ensures
        r == list@.contains(*role),
{
    let mut i: usize = 0;
    while i < list.len()
        invariant
            i <= list@.len(),
            forall|k: int| 0 <= k < i ==> list@[k] != *role,
        decreases list@.len() - i,
    {
        if list[i].same_as(role) {
            assert(list@[i as int] == *role);
            return true;
        }
        i += 1;
    }
    false
}

impl AccessControlState {
    /// No account has two entries.
    pub open spec fn wf(&self) -> bool {
        forall|i: int, j: int| 0 <= i < j < self.roles@.len() ==> (#[trigger] self.roles@[i]).0 != (
        #[trigger] self.roles@[j]).0
    }

    /// Whether the account holds the role.
    pub open spec fn holds(&self, account: Address, role: Role) -> bool {
        exists|i: int|
            0 <= i < self.roles@.len() && (#[trigger] self.roles@[i]).0 == account && self.roles@[i].1.roles@.contains(
                role,
            )
    }

    /// Whether the account's roles are stored under its own name.
    pub open spec fn named(&self) -> bool {
        forall|i: int| 0 <= i < self.roles@.len() ==> (#[trigger] self.roles@[i]).1.name@ == roles_name(self.roles@[i].0)
    }

    /// Checks if the given account has the specified role.
    pub fn has_role(&self, account: Address, role: Role) -> (r: bool)
        requires
            self.wf(),
        ensures
            r == self.holds(account, role),
    {
        match position(&self.roles, &account) {
            Some(i) => {
                let r = contains_role(&self.roles[i].1.roles, &role);
                proof {
                    if self.holds(account, role) {
                        let j = choose|j: int|
                            0 <= j < self.roles@.len() && (#[trigger] self.roles@[j]).0 == account
                                && self.roles@[j].1.roles@.contains(role);
                        if j != i {
                            if j < i {
                                assert(self.roles@[j].0 != self.roles@[i as int].0);
                            } else {
                                assert(self.roles@[i as int].0 != self.roles@[j].0);
                            }
                        }
                    }
                }
                r
            },
            None => false,
        }
    }

    /// Grants the role to the account; nothing changes if it holds it already.
    pub fn grant_role(&mut self, account: Address, role: Role)
        requires
            old(self).wf(),
        ensures
            final(self).wf(),
            final(self).prefix == old(self).prefix,
            old(self).named() ==> final(self).named(),
            forall|a: Address, x: Role| #[trigger] final(self).holds(a, x) == (old(self).holds(a, x) || (a == account && x == role)),
    {
        match position(&self.roles, &account) {
            Some(i) => {
                if contains_role(&self.roles[i].1.roles, &role) {
                    return;
                }
                let ghost before = self.roles@;
                let mut entry = self.roles.remove(i);
                entry.1.roles.push(role);
                self.roles.insert(i, entry);
                proof {
                    assert forall|k: int| 0 <= k < self.roles@.len() && k != i implies #[trigger] self.roles@[k] == before[k] by {
                        if k < i {
                            assert(self.roles@[k] == before[k]);
                        } else {
                            assert(self.roles@[k] == before[k]);
                        }
                    }
                    assert forall|a: Address, x: Role| #[trigger] self.holds(a, x) == (old(self).holds(a, x) || (a == account
                        && x == role)) by {
                        if self.holds(a, x) {
                            let j = choose|j: int|
                                0 <= j < self.roles@.len() && (#[trigger] self.roles@[j]).0 == a
                                    && self.roles@[j].1.roles@.contains(x);
                            if j != i {
                                assert(before[j] == self.roles@[j]);
                            } else if x != role {
                                let k = choose|k: int| 0 <= k < self.roles@[j].1.roles@.len() && self.roles@[j].1.roles@[k] == x;
                                assert(before[j].1.roles@[k] == x);
                            }
                        }
                        if old(self).holds(a, x) {
                            let j = choose|j: int|
                                0 <= j < before.len() && (#[trigger] before[j]).0 == a && before[j].1.roles@.contains(x);
                            if j != i {
                                assert(before[j] == self.roles@[j]);
                            } else {
                                let k = choose|k: int| 0 <= k < before[j].1.roles@.len() && before[j].1.roles@[k] == x;
                                assert(self.roles@[j].1.roles@[k] == x);
                            }
                        }
                        if a == account && x == role {
                            assert(self.roles@[i as int].1.roles@.last() == role);
                        }
                    }
                }
            },
            None => {
                let hex = encode_lower(&account.bytes);
                let name = String::from_str("roles-").concat(hex.as_str());
                let mut roles: Vec<Role> = Vec::new();
                roles.push(role);
                let ghost before = self.roles@;
                self.roles.push((account, RoleList { name, roles }));
                proof {
                    assert forall|a: Address, x: Role| #[trigger] self.holds(a, x) == (old(self).holds(a, x) || (a == account
                        && x == role)) by {
                        if self.holds(a, x) {
                            let j = choose|j: int|
                                0 <= j < self.roles@.len() && (#[trigger] self.roles@[j]).0 == a
                                    && self.roles@[j].1.roles@.contains(x);
                            if j < before.len() {
                                assert(before[j] == self.roles@[j]);
                            } else {
                                let k = choose|k: int| 0 <= k < self.roles@[j].1.roles@.len() && self.roles@[j].1.roles@[k] == x;
                            }
                        }
                        if old(self).holds(a, x) {
                            let j = choose|j: int|
                                0 <= j < before.len() && (#[trigger] before[j]).0 == a && before[j].1.roles@.contains(x);
                            assert(before[j] == self.roles@[j]);
                        }
                        if a == account && x == role {
                            assert(self.roles@[before.len() as int].1.roles@[0] == role);
                        }
                    }
                    assert forall|p: int, q: int| 0 <= p < q < self.roles@.len() implies (#[trigger] self.roles@[p]).0 != (
                    #[trigger] self.roles@[q]).0 by {
                        if q < before.len() {
                            assert(before[p] == self.roles@[p] && before[q] == self.roles@[q]);
                        } else {
                            assert(before[p] == self.roles@[p]);
                        }
                    }
                    reveal_strlit("roles-");
                    if old(self).named() {
                        assert forall|k: int| 0 <= k < self.roles@.len() implies (#[trigger] self.roles@[k]).1.name@ == roles_name(
                            self.roles@[k].0,
                        ) by {
                            if k < before.len() {
                                assert(before[k] == self.roles@[k]);
                            }
                        }
                    }
                }
            },
        }
    }

    /// Revokes the role from the account, if it holds it.
    pub fn revoke_role(&mut self, account: Address, role: Role)
        requires
            old(self).wf(),
        ensures
            final(self).wf(),
            final(self).prefix == old(self).prefix,
            old(self).named() ==> final(self).named(),
            forall|a: Address, x: Role| #[trigger] final(self).holds(a, x) == (old(self).holds(a, x) && !(a == account && x == role)),
    {
        match position(&self.roles, &account) {
            Some(i) => {
                let ghost before = self.roles@;
                let mut entry = self.roles.remove(i);
                let ghost old_list = entry.1.roles@;
                let mut kept: Vec<Role> = Vec::new();
                let mut k: usize = 0;
                while k < entry.1.roles.len()
                    invariant
                        k <= entry.1.roles@.len(),
                        entry.1.roles@ == old_list,
                        forall|x: Role| kept@.contains(x) <==> (old_list.take(k as int).contains(x) && x != role),
                    decreases entry.1.roles@.len() - k,
                {
                    let r = entry.1.roles[k];
                    let ghost kept_before = kept@;
                    if !r.same_as(&role) {
                        kept.push(r);
                    }
                    proof {
                        let t0 = old_list.take(k as int);
                        let t1 = old_list.take(k as int + 1);
                        assert(t1 =~= t0.push(r));
                        assert forall|x: Role| kept@.contains(x) <==> (t1.contains(x) && x != role) by {
                            if kept@.contains(x) {
                                let j = choose|j: int| 0 <= j < kept@.len() && kept@[j] == x;
                                if j < kept_before.len() {
                                    assert(kept_before[j] == x);
                                    assert(kept_before.contains(x));
                                    let m = choose|m: int| 0 <= m < t0.len() && t0[m] == x;
                                    assert(t1[m] == x);
                                } else {
                                    assert(t1[k as int] == x);
                                }
                            }
                            if t1.contains(x) && x != role {
                                let m = choose|m: int| 0 <= m < t1.len() && t1[m] == x;
                                if m < k {
                                    assert(t0[m] == x);
                                    assert(kept_before.contains(x));
                                    let j = choose|j: int| 0 <= j < kept_before.len() && kept_before[j] == x;
                                    assert(kept@[j] == x);
                                } else {
                                    assert(kept@[kept@.len() - 1] == x);
                                }
                            }
                        }
                    }
                    k += 1;
                }
                assert(old_list.take(old_list.len() as int) =~= old_list);
                entry.1.roles = kept;
                self.roles.insert(i, entry);
                proof {
                    assert forall|a: Address, x: Role| #[trigger] self.holds(a, x) == (old(self).holds(a, x) && !(a == account
                        && x == role)) by {
                        if self.holds(a, x) {
                            let j = choose|j: int|
                                0 <= j < self.roles@.len() && (#[trigger] self.roles@[j]).0 == a
                                    && self.roles@[j].1.roles@.contains(x);
                            if j != i {
                                assert(before[j] == self.roles@[j]);
                                assert(before[j].0 != before[i as int].0);
                            } else {
                                assert(before[j].1.roles@ == old_list);
                            }
                        }
                        if old(self).holds(a, x) && !(a == account && x == role) {
                            let j = choose|j: int|
                                0 <= j < before.len() && (#[trigger] before[j]).0 == a && before[j].1.roles@.contains(x);
                            if j != i {
                                assert(before[j] == self.roles@[j]);
                            } else {
                                assert(self.roles@[j].1.roles@.contains(x));
                            }
                        }
                    }
                    assert forall|p: int, q: int| 0 <= p < q < self.roles@.len() implies (#[trigger] self.roles@[p]).0 != (
                    #[trigger] self.roles@[q]).0 by {
                        assert(self.roles@[p].0 == before[p].0 && self.roles@[q].0 == before[q].0);
                    }
                    if old(self).named() {
                        assert forall|m: int| 0 <= m < self.roles@.len() implies (#[trigger] self.roles@[m]).1.name@ == roles_name(
                            self.roles@[m].0,
                        ) by {
                            assert(before[m].1.name == self.roles@[m].1.name && before[m].0 == self.roles@[m].0);
                        }
                    }
                }
            },
            None => {
                proof {
                    assert forall|a: Address, x: Role| #[trigger] self.holds(a, x) == (old(self).holds(a, x) && !(a == account
                        && x == role)) by {
                        if self.holds(a, x) && a == account {
                            let j = choose|j: int|
                                0 <= j < self.roles@.len() && (#[trigger] self.roles@[j]).0 == a
                                    && self.roles@[j].1.roles@.contains(x);
                        }
                    }
                }
            },
        }
    }
}

/// Role-based access control for a contract that keeps an
/// [`AccessControlState`]: the contract says where its state is, the checks
/// and changes of roles come with the trait.
pub trait AccessControl {
    /// The roles as the contract keeps them.
    spec fn access_state(&self) -> AccessControlState;

    /// The state of the contract, which contains the roles.
    fn state(&self) -> (r: &AccessControlState)
        ensures
            *r == self.access_state(),
    ;

    /// The mutable state of the contract, which allows modifying the roles.
    fn state_mut(&mut self) -> (r: &mut AccessControlState)
        ensures
            *r == old(self).access_state(),
            final(self).access_state() == *final(r),
    ;

    /// Checks if the given account has the specified role.
    fn has_role(&self, account: Address, role: Role) -> (r: bool)
        requires
            self.access_state().wf(),
        ensures
            r == self.access_state().holds(account, role),
    {
        self.state().has_role(account, role)
    }

    /// Grants the role to the account; nothing changes if it holds it already.
    fn grant_role(&mut self, account: Address, role: Role)
        requires
            old(self).access_state().wf(),
        ensures
            final(self).access_state().wf(),
            final(self).access_state().prefix == old(self).access_state().prefix,
            old(self).access_state().named() ==> final(self).access_state().named(),
            forall|a: Address, x: Role| #[trigger] final(self).access_state().holds(a, x) == (old(
                self,
            ).access_state().holds(a, x) || (a == account && x == role)),
    {
        self.state_mut().grant_role(account, role);
    }

    /// Revokes the role from the account, if it holds it.
    fn revoke_role(&mut self, account: Address, role: Role)
        requires
            old(self).access_state().wf(),
        ensures
            final(self).access_state().wf(),
            final(self).access_state().prefix == old(self).access_state().prefix,
            old(self).access_state().named() ==> final(self).access_state().named(),
            forall|a: Address, x: Role| #[trigger] final(self).access_state().holds(a, x) == (old(
                self,
            ).access_state().holds(a, x) && !(a == account && x == role)),
    {
        self.state_mut().revoke_role(account, role);
    }
}

/// The state itself is a contract whose roles are its own.
impl AccessControl for AccessControlState {
    open spec fn access_state(&self) -> AccessControlState {
        *self
    }

    fn state(&self) -> (r: &AccessControlState) {
        self
    }

    fn state_mut(&mut self) -> (r: &mut AccessControlState) {
        self
    }
}

/// A granted role is held, and revoking it takes it away again, leaving
/// every other account and role as before the grant.
pub proof fn law_grant_then_revoke(
    s0: AccessControlState,
    s1: AccessControlState,
    s2: AccessControlState,
    account: Address,
    role: Role,
)
    requires
        forall|a: Address, x: Role| #[trigger] s1.holds(a, x) == (s0.holds(a, x) || (a == account && x == role)),
        forall|a: Address, x: Role| #[trigger] s2.holds(a, x) == (s1.holds(a, x) && !(a == account && x == role)),
    ensures
        s1.holds(account, role),
        !s2.holds(account, role),
        forall|a: Address, x: Role| !(a == account && x == role) ==> #[trigger] s2.holds(a, x) == s0.holds(a, x),
{
    assert(s1.holds(account, role));
    assert forall|a: Address, x: Role| !(a == account && x == role) implies #[trigger] s2.holds(a, x) == s0.holds(a, x) by {
        assert(s2.holds(a, x) == (s1.holds(a, x) && !(a == account && x == role)));
        assert(s1.holds(a, x) == (s0.holds(a, x) || (a == account && x == role)));
    }
}

} // verus!
