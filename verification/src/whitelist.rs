//! The presale allowlist: how many units each address may still buy.

use vstd::prelude::*;

verus! {

/// One allowlist assignment: `address` may buy `nb_slots` units during presale.
#[derive(Debug, Clone, PartialEq, Eq)]
pub struct WhiteListEntry {
    pub address: String,
    pub nb_slots: u32,
}

/// Mathematical value of a [`WhiteListEntry`].
pub struct WhiteListEntryView {
    pub address: Seq<char>,
    pub nb_slots: u32,
}

impl View for WhiteListEntry {
    type V = WhiteListEntryView;

    open spec fn view(&self) -> WhiteListEntryView {
        WhiteListEntryView { address: self.address@, nb_slots: self.nb_slots }
    }
}

/// Values of a list of entries, in order.
pub open spec fn entries_view(entries: Seq<WhiteListEntry>) -> Seq<WhiteListEntryView> {
    entries.map_values(|e: WhiteListEntry| e@)
}

/// The addresses that a list of entries names, in order.
pub open spec fn addresses(entries: Seq<WhiteListEntryView>) -> Seq<Seq<char>> {
    entries.map_values(|e: WhiteListEntryView| e.address)
}

/// The map in which each address named by `entries` has the slots of its first entry.
pub open spec fn as_map(entries: Seq<WhiteListEntryView>) -> Map<Seq<char>, u32> {
    Map::new(
        |a: Seq<char>| addresses(entries).contains(a),
        |a: Seq<char>| entries[addresses(entries).index_of(a)].nb_slots,
    )
}

/// `slots` after the assignments of `entries` are applied in order; a later
/// assignment to an address replaces an earlier one.
pub open spec fn assign_all(slots: Map<Seq<char>, u32>, entries: Seq<WhiteListEntryView>) -> Map<
    Seq<char>,
    u32,
>
    decreases entries.len(),
{
    if entries.len() == 0 {
        slots
    } else {
        assign_all(slots, entries.drop_last()).insert(
            entries.last().address,
            entries.last().nb_slots,
        )
    }
}

/// Remaining presale slots by address. An address without an entry has none.
#[derive(Debug, PartialEq, Eq)]
pub struct Whitelist {
    entries: Vec<WhiteListEntry>,
}

impl View for Whitelist {
    type V = Map<Seq<char>, u32>;

    closed spec fn view(&self) -> Map<Seq<char>, u32> {
        as_map(entries_view(self.entries@))
    }
}

impl Whitelist {
    #[verifier::type_invariant]
    spec fn distinct(self) -> bool {
        addresses(entries_view(self.entries@)).no_duplicates()
    }

    /// The allowlist without any entry.
    pub fn new() -> (list: Whitelist)
        ensures
            list@ == Map::<Seq<char>, u32>::empty(),
    {
        let entries: Vec<WhiteListEntry> = Vec::new();
        assert(entries_view(entries@) =~= Seq::<WhiteListEntryView>::empty());
        assert(addresses(entries_view(entries@)) =~= Seq::<Seq<char>>::empty());
        let list = Whitelist { entries };
        assert(list@ =~= Map::<Seq<char>, u32>::empty());
        list
    }

    fn position(&self, address: &String) -> (at: Option<usize>)
        ensures
            match at {
                Some(i) => i < self.entries@.len() && addresses(entries_view(self.entries@))[i as int]
                    == address@,
                None => !addresses(entries_view(self.entries@)).contains(address@),
            },
    {
        let mut i: usize = 0;
        while i < self.entries.len()
            invariant
                i <= self.entries@.len(),
                forall|k: int|
                    0 <= k < i ==> (#[trigger] addresses(entries_view(self.entries@))[k])
                        != address@,
            decreases self.entries@.len() - i,
        {
            if self.entries[i].address == *address {
                return Some(i);
            }
            i += 1;
        }
        None
    }

    /// The slots left to `address`, if it has an entry.
    pub fn slots(&self, address: &String) -> (left: Option<u32>)
        ensures
            left == (if self@.contains_key(address@) {
                Some(self@[address@])
            } else {
                None
            }),
    {
        proof {
            use_type_invariant(self);
        }
        match self.position(address) {
            Some(i) => {
                let ghost names = addresses(entries_view(self.entries@));
                assert(names.contains(address@));
                assert(names.index_of(address@) == i as int);
                Some(self.entries[i].nb_slots)
            },
            None => None,
        }
    }

    /// Gives `address` exactly `nb_slots` slots, whatever it had before.
    pub fn set(&mut self, address: String, nb_slots: u32)
        ensures
            final(self)@ == old(self)@.insert(address@, nb_slots),
    {
        proof {
            use_type_invariant(&*self);
        }
        let ghost before = entries_view(self.entries@);
        let ghost entry = WhiteListEntryView { address: address@, nb_slots };
        let at = self.position(&address);
        let mut entries: Vec<WhiteListEntry> = Vec::new();
        std::mem::swap(&mut self.entries, &mut entries);
        match at {
            Some(i) => {
                entries.set(i, WhiteListEntry { address, nb_slots });
                assert(entries_view(entries@) =~= before.update(i as int, entry));
                proof {
                    lemma_update_as_map(before, i as int, nb_slots);
                }
            },
            None => {
                entries.push(WhiteListEntry { address, nb_slots });
                assert(entries_view(entries@) =~= before.push(entry));
                proof {
                    lemma_push_as_map(before, entry);
                }
            },
        }
        self.entries = entries;
    }

    /// A copy with the same value.
    pub fn duplicate(&self) -> (copy: Whitelist)
        ensures
            copy@ == self@,
    {
        Whitelist { entries: self.entries() }
    }

    /// The entries, one for each address that has one.
    pub fn entries(&self) -> (list: Vec<WhiteListEntry>)
        ensures
            as_map(entries_view(list@)) == self@,
            addresses(entries_view(list@)).no_duplicates(),
    {
        proof {
            use_type_invariant(self);
        }
        let mut list: Vec<WhiteListEntry> = Vec::new();
        let mut i: usize = 0;
        while i < self.entries.len()
            invariant
                i <= self.entries@.len(),
                list@.len() == i,
                forall|k: int| 0 <= k < i ==> (#[trigger] list@[k])@ == self.entries@[k]@,
            decreases self.entries@.len() - i,
        {
            let entry = WhiteListEntry {
                address: self.entries[i].address.clone(),
                nb_slots: self.entries[i].nb_slots,
            };
            list.push(entry);
            i += 1;
        }
        assert(entries_view(list@) =~= entries_view(self.entries@));
        list
    }
}

/// Replacing the slots of the entry at `i` is an insertion at its address.
pub proof fn lemma_update_as_map(entries: Seq<WhiteListEntryView>, i: int, nb_slots: u32)
    requires
        addresses(entries).no_duplicates(),
        0 <= i < entries.len(),
    ensures
        addresses(
            entries.update(i, WhiteListEntryView { address: entries[i].address, nb_slots }),
        ).no_duplicates(),
        as_map(entries.update(i, WhiteListEntryView { address: entries[i].address, nb_slots }))
            == as_map(entries).insert(entries[i].address, nb_slots),
{
    let after = entries.update(i, WhiteListEntryView { address: entries[i].address, nb_slots });
    assert(addresses(after) =~= addresses(entries));
    assert forall|a: Seq<char>| addresses(entries).contains(a) implies #[trigger] as_map(after)[a]
        == as_map(entries).insert(entries[i].address, nb_slots)[a] by {
        let k = addresses(entries).index_of(a);
        assert(addresses(entries)[k] == a);
        assert(addresses(entries)[i] == entries[i].address);
    }
    assert(addresses(entries)[i] == entries[i].address);
    assert(as_map(after) =~= as_map(entries).insert(entries[i].address, nb_slots));
}

/// Appending an entry for an address that has none is an insertion at that address.
pub proof fn lemma_push_as_map(entries: Seq<WhiteListEntryView>, entry: WhiteListEntryView)
    requires
        addresses(entries).no_duplicates(),
        !addresses(entries).contains(entry.address),
    ensures
        addresses(entries.push(entry)).no_duplicates(),
        as_map(entries.push(entry)) == as_map(entries).insert(entry.address, entry.nb_slots),
{
    let after = entries.push(entry);
    let names = addresses(entries);
    assert(addresses(after) =~= names.push(entry.address));
    crate::roles::lemma_push_to_set(names, entry.address);
    assert forall|a: Seq<char>| addresses(after).contains(a) <==> (names.contains(a) || a
        == entry.address) by {
        assert(addresses(after).to_set().contains(a) <==> names.to_set().insert(
            entry.address,
        ).contains(a));
    }
    assert forall|a: Seq<char>| addresses(after).contains(a) implies #[trigger] as_map(after)[a]
        == as_map(entries).insert(entry.address, entry.nb_slots)[a] by {
        let k = addresses(after).index_of(a);
        assert(addresses(after)[k] == a);
        if a == entry.address {
            assert(addresses(after)[entries.len() as int] == a);
        } else {
            let j = names.index_of(a);
            assert(names[j] == a);
            assert(addresses(after)[j] == a);
        }
    }
    assert(as_map(after) =~= as_map(entries).insert(entry.address, entry.nb_slots));
}

} // verus!
