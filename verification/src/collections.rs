//! The lists and maps of the Soroban host, and what is known of them.
//!
//! The host keeps the items; a list or map here is a handle to them. Each
//! operation below stands for one operation of the host. The host meters what a
//! call spends and stops a call that runs out of budget; nothing is said of
//! that here.

use soroban_sdk::Env;
use vstd::prelude::*;
use crate::address::Address;

verus! {

/// The host in which lists and maps are kept.
#[verifier::external_type_specification]
#[verifier::external_body]
pub struct ExEnv(soroban_sdk::Env);

/// A list of the host.
#[verifier::external_type_specification]
#[verifier::external_body]
#[verifier::reject_recursive_types(T)]
pub struct ExVec<T>(soroban_sdk::Vec<T>);

/// A map of the host.
#[verifier::external_type_specification]
#[verifier::external_body]
#[verifier::reject_recursive_types(K)]
#[verifier::reject_recursive_types(V)]
pub struct ExMap<K, V>(soroban_sdk::Map<K, V>);

/// The numbers in a list, first to last.
pub uninterp spec fn number_items(list: soroban_sdk::Vec<u64>) -> Seq<u64>;

/// The addresses in a list of kinds and key halves, first to last.
pub uninterp spec fn address_items(list: soroban_sdk::Vec<(u32, u128, u128)>) -> Seq<Address>;

/// What a map from kinds and key halves holds, by address.
pub uninterp spec fn vote_entries(map: soroban_sdk::Map<(u32, u128, u128), bool>) -> Map<
    Address,
    bool,
>;

/// `soroban_sdk::Vec::new`: a list without items.
#[verifier::external_body]
fn numbers_new(env: &Env) -> (list: soroban_sdk::Vec<u64>)
    ensures
        number_items(list) == Seq::<u64>::empty(),
{
    soroban_sdk::Vec::new(env)
}

/// `soroban_sdk::Vec::len`: how many items the list has. The host counts with
/// 32 bits.
#[verifier::external_body]
fn numbers_len(list: &soroban_sdk::Vec<u64>) -> (len: u32)
    ensures
        len == number_items(*list).len(),
{
    list.len()
}

/// `soroban_sdk::Vec::get`: the item at a position, if there is one.
#[verifier::external_body]
fn numbers_get(list: &soroban_sdk::Vec<u64>, i: u32) -> (item: Option<u64>)
    ensures
        item == (if i < number_items(*list).len() {
            Some(number_items(*list)[i as int])
        } else {
            None
        }),
{
    list.get(i)
}

/// `soroban_sdk::Vec::push_back`: one more item at the end. The host refuses a
/// list of more than `u32::MAX` items.
#[verifier::external_body]
fn numbers_push_back(list: &mut soroban_sdk::Vec<u64>, item: u64)
    requires
        number_items(*old(list)).len() < u32::MAX,
    ensures
        number_items(*final(list)) == number_items(*old(list)).push(item),
{
    list.push_back(item);
}

/// `soroban_sdk::Vec::first_index_of`: the first position of an item, if it is
/// in the list.
#[verifier::external_body]
fn numbers_first_index_of(list: &soroban_sdk::Vec<u64>, item: u64) -> (index: Option<u32>)
    ensures
        match index {
            Some(i) => {
                &&& i < number_items(*list).len()
                &&& number_items(*list)[i as int] == item
                &&& forall|j: int| 0 <= j < i ==> #[trigger] number_items(*list)[j] != item
            },
            None => !number_items(*list).contains(item),
        },
{
    list.first_index_of(item)
}

/// `soroban_sdk::Vec::remove`: takes away the item at a position. A position
/// behind the end changes nothing and gives `None`.
#[verifier::external_body]
fn numbers_remove(list: &mut soroban_sdk::Vec<u64>, i: u32) -> (done: Option<()>)
    ensures
        done is Some == (i < number_items(*old(list)).len()),
        number_items(*final(list)) == (if i < number_items(*old(list)).len() {
            number_items(*old(list)).remove(i as int)
        } else {
            number_items(*old(list))
        }),
{
    list.remove(i)
}

/// `soroban_sdk::Vec::new`: a list without items.
#[verifier::external_body]
fn addresses_new(env: &Env) -> (list: soroban_sdk::Vec<(u32, u128, u128)>)
    ensures
        address_items(list) == Seq::<Address>::empty(),
{
    soroban_sdk::Vec::new(env)
}

/// `soroban_sdk::Vec::len`: how many items the list has. The host counts with
/// 32 bits.
#[verifier::external_body]
fn addresses_len(list: &soroban_sdk::Vec<(u32, u128, u128)>) -> (len: u32)
    ensures
        len == address_items(*list).len(),
{
    list.len()
}

/// `soroban_sdk::Vec::get`: the item at a position, if there is one.
#[verifier::external_body]
fn addresses_get(list: &soroban_sdk::Vec<(u32, u128, u128)>, i: u32) -> (item: Option<Address>)
    ensures
        item == (if i < address_items(*list).len() {
            Some(address_items(*list)[i as int])
        } else {
            None
        }),
{
    list.get(i).map(|key| Address { kind: key.0, hi: key.1, lo: key.2 })
}

/// `soroban_sdk::Vec::push_back`: one more item at the end. The host refuses a
/// list of more than `u32::MAX` items.
#[verifier::external_body]
fn addresses_push_back(list: &mut soroban_sdk::Vec<(u32, u128, u128)>, item: Address)
    requires
        address_items(*old(list)).len() < u32::MAX,
    ensures
        address_items(*final(list)) == address_items(*old(list)).push(item),
{
    list.push_back((item.kind, item.hi, item.lo));
}

/// `soroban_sdk::Vec::contains`: whether an item is in the list.
#[verifier::external_body]
fn addresses_contains(list: &soroban_sdk::Vec<(u32, u128, u128)>, item: Address) -> (r: bool)
    ensures
        r == address_items(*list).contains(item),
{
    list.contains((item.kind, item.hi, item.lo))
}

/// `soroban_sdk::Vec::first_index_of`: the first position of an item, if it is
/// in the list.
#[verifier::external_body]
fn addresses_first_index_of(
    list: &soroban_sdk::Vec<(u32, u128, u128)>,
    item: Address,
) -> (index: Option<u32>)
    ensures
        match index {
            Some(i) => {
                &&& i < address_items(*list).len()
                &&& address_items(*list)[i as int] == item
                &&& forall|j: int| 0 <= j < i ==> #[trigger] address_items(*list)[j] != item
            },
            None => !address_items(*list).contains(item),
        },
{
    list.first_index_of((item.kind, item.hi, item.lo))
}

/// `soroban_sdk::Vec::remove`: takes away the item at a position. A position
/// behind the end changes nothing and gives `None`.
#[verifier::external_body]
fn addresses_remove(list: &mut soroban_sdk::Vec<(u32, u128, u128)>, i: u32) -> (done: Option<()>)
    ensures
        done is Some == (i < address_items(*old(list)).len()),
        address_items(*final(list)) == (if i < address_items(*old(list)).len() {
            address_items(*old(list)).remove(i as int)
        } else {
            address_items(*old(list))
        }),
{
    list.remove(i)
}

/// `soroban_sdk::Map::new`: a map without entries.
#[verifier::external_body]
fn votes_new(env: &Env) -> (map: soroban_sdk::Map<(u32, u128, u128), bool>)
    ensures
        (vote_entries(map) == Map::<Address, bool>::empty()),
{
    soroban_sdk::Map::new(env)
}

/// Whether `keys` holds every key of a map, each once, and `len` keys in all.
pub open spec fn lists_keys(keys: Seq<Address>, map: Map<Address, bool>, len: u32) -> bool {
    keys.no_duplicates() && keys.to_set() == map.dom() && keys.len() == len
}

/// `soroban_sdk::Map::len`: how many entries the map has, one for each key. The
/// host counts with 32 bits.
#[verifier::external_body]
fn votes_len(map: &soroban_sdk::Map<(u32, u128, u128), bool>) -> (len: u32)
    ensures
        exists|keys: Seq<Address>| lists_keys(keys, vote_entries(*map), len),
{
    map.len()
}

/// `soroban_sdk::Map::contains_key`: whether the map has an entry for a key.
#[verifier::external_body]
fn votes_contains_key(map: &soroban_sdk::Map<(u32, u128, u128), bool>, key: Address) -> (r: bool)
    ensures
        r == vote_entries(*map).dom().contains(key),
{
    map.contains_key((key.kind, key.hi, key.lo))
}

/// `soroban_sdk::Map::get`: the value of a key, if it has one.
#[verifier::external_body]
fn votes_get(map: &soroban_sdk::Map<(u32, u128, u128), bool>, key: Address) -> (value: Option<bool>)
    ensures
        value == (if vote_entries(*map).dom().contains(key) {
            Some(vote_entries(*map)[key])
        } else {
            None
        }),
{
    map.get((key.kind, key.hi, key.lo))
}

/// `soroban_sdk::Map::set`: gives a key a value. The host refuses a map of more
/// than `u32::MAX` entries.
#[verifier::external_body]
fn votes_set(map: &mut soroban_sdk::Map<(u32, u128, u128), bool>, key: Address, value: bool)
    requires
        vote_entries(*old(map)).dom().len() < u32::MAX,
    ensures
        vote_entries(*final(map)) == vote_entries(*old(map)).insert(key, value),
{
    map.set((key.kind, key.hi, key.lo), value);
}

/// `soroban_sdk::Map::keys`: the keys, each once, in the order of their kinds
/// and then of their key halves.
#[verifier::external_body]
fn votes_keys(map: &soroban_sdk::Map<(u32, u128, u128), bool>) -> (keys: soroban_sdk::Vec<
    (u32, u128, u128),
>)
    ensures
        forall|a: Address| #[trigger]
            address_items(keys).contains(a) <==> vote_entries(*map).dom().contains(a),
        forall|i: int, j: int|
            0 <= i < j < address_items(keys).len() ==> (#[trigger] address_items(keys)[i]).precedes(
                #[trigger] address_items(keys)[j],
            ),
{
    map.keys()
}

/// What is left of a sequence when every occurrence of an item is taken away.
pub open spec fn without_item<A>(items: Seq<A>, item: A) -> Seq<A> {
    items.filter(|x: A| x != item)
}

/// The numbers of a sequence that are greater than `bound`, in their order.
pub open spec fn items_above(items: Seq<u64>, bound: u64) -> Seq<u64> {
    items.filter(|x: u64| x > bound)
}

/// A list of numbers.
pub struct NumberList {
    items: soroban_sdk::Vec<u64>,
}

impl View for NumberList {
    type V = Seq<u64>;

    closed spec fn view(&self) -> Seq<u64> {
        number_items(self.items)
    }
}

impl NumberList {
    /// The empty list.
    pub fn new(env: &Env) -> (list: NumberList)
        ensures
            list@ == Seq::<u64>::empty(),
    {
        NumberList { items: numbers_new(env) }
    }

    /// The number of items.
    pub fn len(&self) -> (len: u32)
        ensures
            len == self@.len(),
    {
        numbers_len(&self.items)
    }

    /// The item at a position.
    pub fn get(&self, i: u32) -> (item: Option<u64>)
        ensures
            item == (if i < self@.len() {
                Some(self@[i as int])
            } else {
                None
            }),
    {
        numbers_get(&self.items, i)
    }

    /// Puts an item at the end.
    pub fn push(&mut self, item: u64)
        requires
            old(self)@.len() < u32::MAX,
        ensures
            final(self)@ == old(self)@.push(item),
    {
        numbers_push_back(&mut self.items, item);
    }

    /// Takes the first occurrence of an item away, if there is one.
    pub fn remove_first(&mut self, item: u64)
        ensures
            final(self)@ == old(self)@.remove_value(item),
    {
        match numbers_first_index_of(&self.items, item) {
            Some(i) => {
                let _ = numbers_remove(&mut self.items, i);
                proof {
                    lemma_remove_value(old(self)@, item, i as int);
                }
            },
            None => {
                proof {
                    lemma_remove_absent(old(self)@, item);
                }
            },
        }
    }

    /// The list without any occurrence of an item.
    pub fn without(&self, env: &Env, item: u64) -> (list: NumberList)
        ensures
            list@ == without_item(self@, item),
    {
        let mut list = NumberList::new(env);
        let len: u32 = self.len();
        let mut i: u32 = 0;
        proof {
            reveal(Seq::filter);
            assert(self@.take(0) =~= Seq::<u64>::empty());
        }
        while i < len
            invariant
                i <= len,
                len == self@.len(),
                list@ == without_item(self@.take(i as int), item),
            decreases len - i,
        {
            proof {
                reveal(Seq::filter);
                assert(self@.take(i + 1).drop_last() =~= self@.take(i as int));
                self@.take(i as int).lemma_filter_len(|x: u64| x != item);
            }
            if let Some(x) = self.get(i) {
                if x != item {
                    list.push(x);
                }
            }
            i = i + 1;
        }
        assert(self@.take(len as int) =~= self@);
        list
    }

    /// A list of the same numbers.
    pub fn copy(&self, env: &Env) -> (list: NumberList)
        ensures
            list@ == self@,
    {
        let mut list = NumberList::new(env);
        let len: u32 = self.len();
        let mut i: u32 = 0;
        while i < len
            invariant
                i <= len,
                len == self@.len(),
                list@ == self@.take(i as int),
            decreases len - i,
        {
            if let Some(x) = self.get(i) {
                list.push(x);
            }
            i = i + 1;
        }
        list
    }

    /// The list of the numbers that are greater than `bound`.
    pub fn above(&self, env: &Env, bound: u64) -> (list: NumberList)
        ensures
            list@ == items_above(self@, bound),
    {
        let mut list = NumberList::new(env);
        let len: u32 = self.len();
        let mut i: u32 = 0;
        proof {
            reveal(Seq::filter);
            assert(self@.take(0) =~= Seq::<u64>::empty());
        }
        while i < len
            invariant
                i <= len,
                len == self@.len(),
                list@ == items_above(self@.take(i as int), bound),
            decreases len - i,
        {
            proof {
                reveal(Seq::filter);
                assert(self@.take(i + 1).drop_last() =~= self@.take(i as int));
                self@.take(i as int).lemma_filter_len(|x: u64| x > bound);
            }
            if let Some(x) = self.get(i) {
                if x > bound {
                    list.push(x);
                }
            }
            i = i + 1;
        }
        assert(self@.take(len as int) =~= self@);
        list
    }
}

/// A list of addresses.
pub struct AddressList {
    items: soroban_sdk::Vec<(u32, u128, u128)>,
}

impl View for AddressList {
    type V = Seq<Address>;

    closed spec fn view(&self) -> Seq<Address> {
        address_items(self.items)
    }
}

impl AddressList {
    /// The empty list.
    pub fn new(env: &Env) -> (list: AddressList)
        ensures
            list@ == Seq::<Address>::empty(),
    {
        AddressList { items: addresses_new(env) }
    }

    /// The number of items.
    pub fn len(&self) -> (len: u32)
        ensures
            len == self@.len(),
    {
        addresses_len(&self.items)
    }

    /// The item at a position.
    pub fn get(&self, i: u32) -> (item: Option<Address>)
        ensures
            item == (if i < self@.len() {
                Some(self@[i as int])
            } else {
                None
            }),
    {
        addresses_get(&self.items, i)
    }

    /// Whether an item is in the list.
    pub fn contains(&self, item: Address) -> (r: bool)
        ensures
            r == self@.contains(item),
    {
        addresses_contains(&self.items, item)
    }

    /// Puts an item at the end.
    pub fn push(&mut self, item: Address)
        requires
            old(self)@.len() < u32::MAX,
        ensures
            final(self)@ == old(self)@.push(item),
    {
        addresses_push_back(&mut self.items, item);
    }

    /// Takes the first occurrence of an item away, if there is one.
    pub fn remove_first(&mut self, item: Address)
        ensures
            final(self)@ == old(self)@.remove_value(item),
    {
        match addresses_first_index_of(&self.items, item) {
            Some(i) => {
                let _ = addresses_remove(&mut self.items, i);
                proof {
                    lemma_remove_value(old(self)@, item, i as int);
                }
            },
            None => {
                proof {
                    lemma_remove_absent(old(self)@, item);
                }
            },
        }
    }

    /// The list without any occurrence of an item.
    pub fn without(&self, env: &Env, item: Address) -> (list: AddressList)
        ensures
            list@ == without_item(self@, item),
    {
        let mut list = AddressList::new(env);
        let len: u32 = self.len();
        let mut i: u32 = 0;
        proof {
            reveal(Seq::filter);
            assert(self@.take(0) =~= Seq::<Address>::empty());
        }
        while i < len
            invariant
                i <= len,
                len == self@.len(),
                list@ == without_item(self@.take(i as int), item),
            decreases len - i,
        {
            proof {
                reveal(Seq::filter);
                assert(self@.take(i + 1).drop_last() =~= self@.take(i as int));
                self@.take(i as int).lemma_filter_len(|x: Address| x != item);
            }
            if let Some(x) = self.get(i) {
                if x != item {
                    list.push(x);
                }
            }
            i = i + 1;
        }
        assert(self@.take(len as int) =~= self@);
        list
    }

    /// The list without its first item.
    pub fn without_oldest(&self, env: &Env) -> (list: AddressList)
        requires
            self@.len() > 0,
        ensures
            list@ == self@.skip(1),
    {
        let mut list = AddressList::new(env);
        let len: u32 = self.len();
        let mut i: u32 = 1;
        while i < len
            invariant
                1 <= i <= len,
                len == self@.len(),
                list@ == self@.subrange(1, i as int),
            decreases len - i,
        {
            if let Some(x) = self.get(i) {
                list.push(x);
            }
            i = i + 1;
        }
        list
    }
}

proof fn lemma_remove_value<A>(s: Seq<A>, item: A, i: int)
    requires
        0 <= i < s.len(),
        s[i] == item,
        forall|j: int| 0 <= j < i ==> s[j] != item,
    ensures
        s.remove_value(item) == s.remove(i),
{
    s.index_of_first_ensures(item);
    assert(s.index_of_first(item) == Some(i));
}

proof fn lemma_remove_absent<A>(s: Seq<A>, item: A)
    requires
        !s.contains(item),
    ensures
        s.remove_value(item) == s,
{
    s.index_of_first_ensures(item);
}

/// Taking an item away leaves the others, each as often as it was there.
pub proof fn taking_an_item_away<A>(items: Seq<A>, item: A)
    ensures
        without_item(items, item).len() <= items.len(),
        items.no_duplicates() ==> without_item(items, item).no_duplicates(),
        forall|x: A| #[trigger]
            without_item(items, item).contains(x) <==> items.contains(x) && x
                != item,
    decreases items.len(),
{
    reveal(Seq::filter);
    if items.len() > 0 {
        let shorter = items.drop_last();
        let rest = without_item(shorter, item);
        let all = without_item(items, item);
        taking_an_item_away(shorter, item);
        assert(items =~= shorter.push(items.last()));
        if items.last() != item {
            assert(all == rest.push(items.last()));
        } else {
            assert(all == rest);
        }
        assert forall|x: A| #[trigger] all.contains(x) <==> items.contains(x) && x != item by {
            if all.contains(x) {
                let i = choose|i: int| 0 <= i < all.len() && all[i] == x;
                if i < rest.len() {
                    assert(rest[i] == x);
                    assert(rest.contains(x));
                    let j = choose|j: int| 0 <= j < shorter.len() && shorter[j] == x;
                    assert(items[j] == x);
                } else {
                    assert(items[items.len() - 1] == x);
                }
            }
            if items.contains(x) && x != item {
                let j = choose|j: int| 0 <= j < items.len() && items[j] == x;
                if j < shorter.len() {
                    assert(shorter[j] == x);
                    assert(rest.contains(x));
                    let i = choose|i: int| 0 <= i < rest.len() && rest[i] == x;
                    assert(all[i] == x);
                } else {
                    assert(all[all.len() - 1] == x);
                }
            }
        }
        if items.no_duplicates() {
            assert(shorter.no_duplicates());
            assert forall|i: int, j: int| 0 <= i < all.len() && 0 <= j < all.len() && i
                != j implies all[i] != all[j] by {
                if items.last() != item {
                    if i == rest.len() {
                        assert(rest.contains(rest[j]));
                        let k = choose|k: int| 0 <= k < shorter.len() && shorter[k] == rest[j];
                        assert(items[k] != items[items.len() - 1]);
                    } else if j == rest.len() {
                        assert(rest.contains(rest[i]));
                        let k = choose|k: int| 0 <= k < shorter.len() && shorter[k] == rest[i];
                        assert(items[k] != items[items.len() - 1]);
                    }
                }
            }
        }
    }
}

/// Putting an item last adds it and keeps the others.
pub proof fn putting_an_item_last<A>(items: Seq<A>, item: A)
    ensures
        forall|x: A| #[trigger] items.push(item).contains(x) <==> items.contains(x) || x == item,
        items.no_duplicates() && !items.contains(item) ==> items.push(item).no_duplicates(),
{
    let list = items.push(item);
    assert forall|x: A| #[trigger] list.contains(x) <==> items.contains(x) || x == item by {
        if items.contains(x) {
            let i = choose|i: int| 0 <= i < items.len() && items[i] == x;
            assert(list[i] == x);
        }
        if x == item {
            assert(list[list.len() - 1] == x);
        }
        if list.contains(x) && x != item {
            let i = choose|i: int| 0 <= i < list.len() && list[i] == x;
            assert(items[i] == x);
        }
    }
    if items.no_duplicates() && !items.contains(item) {
        assert forall|i: int, j: int| 0 <= i < list.len() && 0 <= j < list.len() && i
            != j implies list[i] != list[j] by {
            if i == items.len() {
                assert(items[j] != item) by {
                    assert(items.contains(items[j]));
                }
            } else if j == items.len() {
                assert(items[i] != item) by {
                    assert(items.contains(items[i]));
                }
            }
        }
    }
}

/// The votes cast, by voter.
pub struct VoteMap {
    votes: soroban_sdk::Map<(u32, u128, u128), bool>,
}

impl View for VoteMap {
    type V = Map<Address, bool>;

    closed spec fn view(&self) -> Map<Address, bool> {
        vote_entries(self.votes)
    }
}

impl VoteMap {
    /// The empty map.
    pub fn new(env: &Env) -> (map: VoteMap)
        ensures
            map@ == Map::<Address, bool>::empty(),
    {
        VoteMap { votes: votes_new(env) }
    }

    /// The number of votes.
    pub fn len(&self) -> (len: u32)
        ensures
            self@.dom().finite(),
            len == self@.dom().len(),
    {
        let len: u32 = votes_len(&self.votes);
        proof {
            let keys = choose|keys: Seq<Address>| lists_keys(keys, self@, len);
            keys.unique_seq_to_set();
        }
        len
    }

    /// Whether a voter has voted.
    pub fn contains_key(&self, voter: Address) -> (r: bool)
        ensures
            r == self@.dom().contains(voter),
    {
        votes_contains_key(&self.votes, voter)
    }

    /// The vote of a voter.
    pub fn get(&self, voter: Address) -> (vote: Option<bool>)
        ensures
            vote == (if self@.dom().contains(voter) {
                Some(self@[voter])
            } else {
                None
            }),
    {
        votes_get(&self.votes, voter)
    }

    /// Sets the vote of a voter.
    pub fn set(&mut self, voter: Address, vote: bool)
        requires
            old(self)@.dom().len() < u32::MAX,
        ensures
            final(self)@ == old(self)@.insert(voter, vote),
    {
        votes_set(&mut self.votes, voter, vote);
    }

    /// The voters, each once, in the order of addresses.
    pub fn voters(&self) -> (list: AddressList)
        ensures
            forall|a: Address| #[trigger] list@.contains(a) <==> self@.dom().contains(a),
            forall|i: int, j: int|
                0 <= i < j < list@.len() ==> (#[trigger] list@[i]).precedes(#[trigger] list@[j]),
    {
        AddressList { items: votes_keys(&self.votes) }
    }
}

} // verus!
