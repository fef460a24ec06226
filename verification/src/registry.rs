//! The owner registry: a keyed store with one wishlist per owner.

use vstd::prelude::*;

use crate::user::User;
use crate::vehicle::VehicleView;

verus! {

/// The wishlist that `registry` holds for `owner`: the stored one, or the
/// empty wishlist for an owner that has no entry.
pub open spec fn collection_of(
    registry: Map<Seq<char>, Seq<VehicleView>>,
    owner: Seq<char>,
) -> Seq<VehicleView> {
    if registry.dom().contains(owner) {
        registry[owner]
    } else {
        Seq::empty()
    }
}

/// One owner's entry.
struct Account {
    owner: String,
    user: User,
}

/// Whether the entry at position `i` belongs to `owner`.
spec fn owner_at(entries: Seq<Account>, owner: Seq<char>, i: int) -> bool {
    0 <= i < entries.len() && entries[i].owner@ == owner
}

/// No owner has two entries.
spec fn distinct_owners(entries: Seq<Account>) -> bool {
    forall|i: int, j: int| 0 <= i < j < entries.len() ==> entries[i].owner@ != entries[j].owner@
}

/// The map from each owner with an entry to the wishlist in that entry.
spec fn entries_map(entries: Seq<Account>) -> Map<Seq<char>, Seq<VehicleView>> {
    Map::new(
        |owner: Seq<char>| exists|i: int| owner_at(entries, owner, i),
        |owner: Seq<char>| entries[choose|i: int| owner_at(entries, owner, i)].user@,
    )
}

/// Every entry is found in the map, under its owner, with its wishlist.
proof fn lemma_entry_is_mapped(entries: Seq<Account>, i: int)
    requires
        distinct_owners(entries),
        0 <= i < entries.len(),
    ensures
        entries_map(entries).dom().contains(entries[i].owner@),
        entries_map(entries)[entries[i].owner@] == entries[i].user@,
{
    let owner = entries[i].owner@;
    assert(owner_at(entries, owner, i));
    let k = choose|k: int| owner_at(entries, owner, k);
    assert(k == i);
}

/// An owner without an entry is not in the map.
proof fn lemma_absent_is_unmapped(entries: Seq<Account>, owner: Seq<char>)
    requires
        forall|i: int| 0 <= i < entries.len() ==> entries[i].owner@ != owner,
    ensures
        !entries_map(entries).dom().contains(owner),
{
    assert(forall|i: int| !owner_at(entries, owner, i));
}

/// Appending the entry of an owner who had none inserts it into the map.
proof fn lemma_push_entry(entries: Seq<Account>, account: Account)
    requires
        distinct_owners(entries),
        forall|i: int| 0 <= i < entries.len() ==> entries[i].owner@ != account.owner@,
    ensures
        distinct_owners(entries.push(account)),
        entries_map(entries.push(account)) == entries_map(entries).insert(
            account.owner@,
            account.user@,
        ),
{
    let grown = entries.push(account);
    let n = entries.len() as int;
    assert(distinct_owners(grown));
    assert forall|owner: Seq<char>|
        entries_map(grown).dom().contains(owner) <==> entries_map(entries).insert(
            account.owner@,
            account.user@,
        ).dom().contains(owner) by {
        if owner == account.owner@ {
            assert(owner_at(grown, owner, n));
        } else if entries_map(grown).dom().contains(owner) {
            let i = choose|i: int| owner_at(grown, owner, i);
            assert(owner_at(entries, owner, i));
        } else if entries_map(entries).dom().contains(owner) {
            let i = choose|i: int| owner_at(entries, owner, i);
            assert(owner_at(grown, owner, i));
        }
    }
    assert forall|owner: Seq<char>| #[trigger]
        entries_map(grown).dom().contains(owner) implies entries_map(grown)[owner]
        == entries_map(entries).insert(account.owner@, account.user@)[owner] by {
        let i = choose|i: int| owner_at(grown, owner, i);
        lemma_entry_is_mapped(grown, i);
        if i < n {
            lemma_entry_is_mapped(entries, i);
        }
    }
    assert(entries_map(grown) =~= entries_map(entries).insert(account.owner@, account.user@));
}

/// Replacing an entry by another of the same owner overwrites the owner's
/// wishlist in the map and leaves every other owner's as it was.
proof fn lemma_update_entry(entries: Seq<Account>, i: int, account: Account)
    requires
        distinct_owners(entries),
        0 <= i < entries.len(),
        account.owner@ == entries[i].owner@,
    ensures
        distinct_owners(entries.update(i, account)),
        entries_map(entries.update(i, account)) == entries_map(entries).insert(
            account.owner@,
            account.user@,
        ),
{
    let changed = entries.update(i, account);
    assert(distinct_owners(changed));
    assert forall|owner: Seq<char>|
        entries_map(changed).dom().contains(owner) <==> entries_map(entries).insert(
            account.owner@,
            account.user@,
        ).dom().contains(owner) by {
        if owner == account.owner@ {
            assert(owner_at(changed, owner, i));
        } else if entries_map(changed).dom().contains(owner) {
            let k = choose|k: int| owner_at(changed, owner, k);
            assert(owner_at(entries, owner, k));
        } else if entries_map(entries).dom().contains(owner) {
            let k = choose|k: int| owner_at(entries, owner, k);
            assert(owner_at(changed, owner, k));
        }
    }
    assert forall|owner: Seq<char>| #[trigger]
        entries_map(changed).dom().contains(owner) implies entries_map(changed)[owner]
        == entries_map(entries).insert(account.owner@, account.user@)[owner] by {
        let k = choose|k: int| owner_at(changed, owner, k);
        lemma_entry_is_mapped(changed, k);
        if k != i {
            lemma_entry_is_mapped(entries, k);
        }
    }
    assert(entries_map(changed) =~= entries_map(entries).insert(account.owner@, account.user@));
}

/// An in-memory store of wishlists, keyed by owner. An owner has at most one
/// entry. An entry is made when a wishlist is first stored for its owner, is
/// overwritten by every later store, and is never taken out again: an owner
/// whose wishlist has been emptied keeps an entry that holds the empty
/// wishlist.
pub struct Registry {
    entries: Vec<Account>,
}

impl View for Registry {
    type V = Map<Seq<char>, Seq<VehicleView>>;

    closed spec fn view(&self) -> Map<Seq<char>, Seq<VehicleView>> {
        entries_map(self.entries@)
    }
}

impl Registry {
    /// What holds of every registry: no owner has two entries.
    #[verifier::type_invariant]
    spec fn well_formed(self) -> bool {
        distinct_owners(self.entries@)
    }

    /// A registry without entries.
    pub fn new() -> (registry: Self)
        ensures
            registry@ == Map::<Seq<char>, Seq<VehicleView>>::empty(),
    {
        let registry = Registry { entries: Vec::new() };
        assert(registry@ =~= Map::<Seq<char>, Seq<VehicleView>>::empty()) by {
            assert(forall|owner: Seq<char>, i: int| !owner_at(registry.entries@, owner, i));
        }
        registry
    }

    /// The position of the entry of `owner`, if there is one.
    fn position(&self, owner: &String) -> (found: Option<usize>)
        ensures
            found is Some ==> owner_at(self.entries@, owner@, found->0 as int),
            found is None ==> forall|i: int|
                0 <= i < self.entries@.len() ==> self.entries@[i].owner@ != owner@,
    {
        let mut i: usize = 0;
        while i < self.entries.len()
            invariant
                i <= self.entries@.len(),
                forall|k: int| 0 <= k < i ==> self.entries@[k].owner@ != owner@,
            decreases self.entries@.len() - i,
        {
            if self.entries[i].owner == *owner {
                return Some(i);
            }
            i += 1;
        }
        None
    }

    /// A copy of the wishlist stored for `owner`, or `None` for an owner
    /// without an entry.
    pub fn get(&self, owner: &String) -> (found: Option<User>)
        ensures
            found is Some <==> self@.dom().contains(owner@),
            found is Some ==> found->0@ == self@[owner@],
    {
        proof {
            use_type_invariant(self);
        }
        match self.position(owner) {
            Some(i) => {
                proof {
                    lemma_entry_is_mapped(self.entries@, i as int);
                }
                Some(self.entries[i].user.clone())
            },
            None => {
                proof {
                    lemma_absent_is_unmapped(self.entries@, owner@);
                }
                None
            },
        }
    }

    /// A copy of the wishlist stored for `owner`, or a new empty wishlist for
    /// an owner without an entry. The registry itself is not changed: a new
    /// wishlist has an entry only once it is [`put`](Registry::put).
    pub fn get_or_create(&self, owner: &String) -> (user: User)
        ensures
            user@ == collection_of(self@, owner@),
    {
        match self.get(owner) {
            Some(user) => user,
            None => User::new_user(),
        }
    }

    /// Stores `user` as the wishlist of `owner`, in place of the one stored
    /// before, if any. No other owner's entry is touched.
    pub fn put(&mut self, owner: &String, user: User)
        ensures
            final(self)@ == old(self)@.insert(owner@, user@),
            final(self)@.dom() == old(self)@.dom().insert(owner@),
    {
        proof {
            use_type_invariant(&*self);
        }
        let found = self.position(owner);
        let mut entries: Vec<Account> = Vec::new();
        std::mem::swap(&mut entries, &mut self.entries);
        match found {
            Some(i) => {
                proof {
                    lemma_update_entry(
                        entries@,
                        i as int,
                        Account { owner: entries@[i as int].owner, user },
                    );
                }
                entries[i].user = user;
            },
            None => {
                let account = Account { owner: owner.clone(), user };
                proof {
                    lemma_push_entry(entries@, account);
                }
                entries.push(account);
            },
        }
        self.entries = entries;
    }
}

impl Default for Registry {
    fn default() -> (registry: Self)
        ensures
            registry@ == Map::<Seq<char>, Seq<VehicleView>>::empty(),
    {
        Registry::new()
    }
}

} // verus!
