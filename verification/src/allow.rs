//! Allow-lists: the fixed sets of identifiers that a request may name.

use vstd::prelude::*;
use vstd::string::*;
use crate::text::{same_text, texts};

verus! {

/// The entries of `names` in order, each kept at its first occurrence only.
pub open spec fn first_occurrences(names: Seq<Seq<char>>) -> Seq<Seq<char>>
    decreases names.len(),
{
    if names.len() == 0 {
        Seq::empty()
    } else {
        let earlier = first_occurrences(names.drop_last());
        if earlier.contains(names.last()) {
            earlier
        } else {
            earlier.push(names.last())
        }
    }
}

/// Keeping first occurrences loses no name and leaves no name twice.
pub proof fn lemma_first_occurrences(names: Seq<Seq<char>>)
    ensures
        first_occurrences(names).no_duplicates(),
        first_occurrences(names).to_set() == names.to_set(),
    decreases names.len(),
{
    if names.len() == 0 {
        assert(first_occurrences(names).to_set() =~= names.to_set());
    } else {
        let head = names.drop_last();
        let earlier = first_occurrences(head);
        lemma_first_occurrences(head);
        let kept = first_occurrences(names);
        assert forall|name: Seq<char>| kept.to_set().contains(name) <==> names.to_set().contains(
            name,
        ) by {
            if names.contains(name) {
                let i = choose|i: int| 0 <= i < names.len() && names[i] == name;
                if i < names.len() - 1 {
                    assert(head[i] == name);
                    assert(head.to_set().contains(name));
                    assert(earlier.contains(name));
                    let j = choose|j: int| 0 <= j < earlier.len() && earlier[j] == name;
                    assert(kept[j] == name);
                } else if earlier.contains(name) {
                } else {
                    assert(kept[earlier.len() as int] == name);
                }
            }
            if kept.contains(name) {
                let j = choose|j: int| 0 <= j < kept.len() && kept[j] == name;
                if j < earlier.len() {
                    assert(earlier[j] == name);
                    assert(earlier.to_set().contains(name));
                    assert(head.contains(name));
                    let i = choose|i: int| 0 <= i < head.len() && head[i] == name;
                    assert(names[i] == name);
                } else {
                    assert(names[names.len() - 1] == name);
                }
            }
        }
        assert(kept.to_set() =~= names.to_set());
    }
}

/// Where no name stands twice, keeping first occurrences keeps everything.
pub proof fn lemma_distinct_kept(names: Seq<Seq<char>>)
    requires
        names.no_duplicates(),
    ensures
        first_occurrences(names) == names,
    decreases names.len(),
{
    if names.len() > 0 {
        let head = names.drop_last();
        lemma_distinct_kept(head);
        if head.contains(names.last()) {
            let i = choose|i: int| 0 <= i < head.len() && head[i] == names.last();
            assert(names[i] == names[names.len() - 1]);
        }
        assert(head.push(names.last()) =~= names);
    }
}

/// The services that the panel manages, in the order in which they are
/// listed.
pub open spec fn service_names() -> Seq<Seq<char>> {
    seq!["pi400-hid"@, "target-ssh"@, "target-serial-tcp"@, "kiosk"@, "admin-backend"@]
}

/// The network interfaces that may serve as the uplink.
pub open spec fn uplink_names() -> Seq<Seq<char>> {
    seq!["eth0"@, "wlan0"@]
}

/// Whether `list` holds an entry with the characters of `name`.
fn holds(list: &Vec<String>, name: &str) -> (r: bool)
    ensures
        r == texts(list@).contains(name@),
{
    let mut i: usize = 0;
    while i < list.len()
        invariant
            i <= list.len(),
            forall|k: int| 0 <= k < i ==> texts(list@)[k] != name@,
        decreases list.len() - i,
    {
        if same_text(list[i].as_str(), name) {
            assert(texts(list@)[i as int] == name@);
            return true;
        }
        i += 1;
    }
    false
}

/// A set of identifiers that requests may name. It is filled once, when it
/// is made, and offers no way to change it afterwards.
#[derive(Debug)]
pub struct AllowList {
    names: Vec<String>,
}

impl View for AllowList {
    type V = Set<Seq<char>>;

    /// The identifiers that the list permits.
    open spec fn view(&self) -> Set<Seq<char>> {
        self.entries().to_set()
    }
}

impl AllowList {
    #[verifier::type_invariant]
    spec fn distinct(self) -> bool {
        texts(self.names@).no_duplicates()
    }

    /// The permitted identifiers in the order in which the list walks them.
    pub closed spec fn entries(&self) -> Seq<Seq<char>> {
        texts(self.names@)
    }

    /// The list that permits exactly the given names. A name given more
    /// than once is kept where it first stands.
    pub fn from_names(names: Vec<String>) -> (r: AllowList)
        ensures
            r.entries() == first_occurrences(texts(names@)),
            r.entries().no_duplicates(),
            r@ == texts(names@).to_set(),
    {
        let ghost given = texts(names@);
        let mut kept: Vec<String> = Vec::new();
        let mut i: usize = 0;
        assert(given.take(0) =~= Seq::<Seq<char>>::empty());
        assert(texts(kept@) =~= Seq::<Seq<char>>::empty());
        while i < names.len()
            invariant
                i <= names.len(),
                given == texts(names@),
                texts(kept@) == first_occurrences(given.take(i as int)),
            decreases names.len() - i,
        {
            let ghost before = texts(kept@);
            proof {
                assert(given.take(i + 1).drop_last() =~= given.take(i as int));
                assert(given.take(i + 1).last() == names[i as int]@);
            }
            if !holds(&kept, names[i].as_str()) {
                let name = names[i].clone();
                kept.push(name);
                assert(texts(kept@) =~= before.push(names[i as int]@));
            }
            i += 1;
        }
        proof {
            assert(given.take(i as int) =~= given);
            lemma_first_occurrences(given);
        }
        AllowList { names: kept }
    }

    /// The allow-list of services that the panel manages.
    pub fn services() -> (r: AllowList)
        ensures
            r.entries() == service_names(),
            r.entries().no_duplicates(),
            r@ == service_names().to_set(),
    {
        let mut names: Vec<String> = Vec::new();
        names.push("pi400-hid".to_owned());
        names.push("target-ssh".to_owned());
        names.push("target-serial-tcp".to_owned());
        names.push("kiosk".to_owned());
        names.push("admin-backend".to_owned());
        proof {
            reveal_strlit("pi400-hid");
            reveal_strlit("target-ssh");
            reveal_strlit("target-serial-tcp");
            reveal_strlit("kiosk");
            reveal_strlit("admin-backend");
            let given = service_names();
            assert(texts(names@) =~= given);
            assert(given[0].len() == 9 && given[1].len() == 10 && given[2].len() == 17
                && given[3].len() == 5 && given[4].len() == 13);
            lemma_distinct_kept(given);
        }
        AllowList::from_names(names)
    }

    /// The allow-list of network interfaces that may serve as the uplink.
    pub fn uplinks() -> (r: AllowList)
        ensures
            r.entries() == uplink_names(),
            r.entries().no_duplicates(),
            r@ == uplink_names().to_set(),
    {
        let mut names: Vec<String> = Vec::new();
        names.push("eth0".to_owned());
        names.push("wlan0".to_owned());
        proof {
            reveal_strlit("eth0");
            reveal_strlit("wlan0");
            let given = uplink_names();
            assert(texts(names@) =~= given);
            assert(given[0].len() == 4 && given[1].len() == 5);
            lemma_distinct_kept(given);
        }
        AllowList::from_names(names)
    }

    /// Whether the list permits `name`.
    pub fn contains(&self, name: &str) -> (r: bool)
        ensures
            r == self@.contains(name@),
            self.entries().no_duplicates(),
    {
        proof {
            use_type_invariant(self);
        }
        holds(&self.names, name)
    }

    /// How many identifiers the list permits.
    pub fn len(&self) -> (r: usize)
        ensures
            r == self.entries().len(),
            r == self@.len(),
    {
        proof {
            use_type_invariant(self);
            self.entries().unique_seq_to_set();
        }
        self.names.len()
    }

    /// The permitted identifiers, in the order of [`AllowList::entries`].
    pub fn names(&self) -> (r: Vec<String>)
        ensures
            texts(r@) == self.entries(),
            self.entries().no_duplicates(),
    {
        proof {
            use_type_invariant(self);
        }
        let mut out: Vec<String> = Vec::new();
        let mut i: usize = 0;
        while i < self.names.len()
            invariant
                i <= self.names.len(),
                texts(out@) =~= texts(self.names@).take(i as int),
            decreases self.names.len() - i,
        {
            let ghost before = texts(out@);
            let name = self.names[i].clone();
            out.push(name);
            assert(texts(out@) =~= before.push(self.names[i as int]@));
            i += 1;
        }
        assert(texts(self.names@).take(i as int) =~= texts(self.names@));
        out
    }
}

} // verus!
