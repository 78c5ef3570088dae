use vstd::prelude::*;

verus! {

/// The texts of a list of names, in the list's order.
pub open spec fn names(list: Seq<String>) -> Seq<Seq<char>> {
    Seq::new(list.len(), |i: int| list[i]@)
}

/// The names of a list as a set.
pub open spec fn name_set(list: Seq<String>) -> Set<Seq<char>> {
    names(list).to_set()
}

/// A pushed name is pushed onto the texts.
pub proof fn lemma_names_push(list: Seq<String>, name: String)
    ensures
        names(list.push(name)) == names(list).push(name@),
        name_set(list.push(name)) == name_set(list).insert(name@),
{
    assert(names(list.push(name)) =~= names(list).push(name@));
    names(list).lemma_push_to_set_commute(name@);
}

/// A name that the list lacks can join it without standing twice.
pub proof fn lemma_push_keeps_distinct(list: Seq<String>, name: String)
    requires
        names(list).no_duplicates(),
        !name_set(list).contains(name@),
    ensures
        names(list.push(name)).no_duplicates(),
{
    let before = names(list);
    let after = names(list.push(name));
    assert forall|i: int, j: int|
        0 <= i < after.len() && 0 <= j < after.len() && i != j implies after[i] != after[j] by {
        if i < before.len() && j < before.len() {
            assert(after[i] == before[i] && after[j] == before[j]);
        } else if i < before.len() {
            assert(after[i] == before[i]);
            assert(before.contains(before[i]));
        } else {
            assert(after[j] == before[j]);
            assert(before.contains(before[j]));
        }
    }
}

/// A list without a repeated name has as many names as entries.
pub proof fn lemma_name_set_len(list: Seq<String>)
    requires
        names(list).no_duplicates(),
    ensures
        name_set(list).finite(),
        name_set(list).len() == list.len(),
{
    names(list).unique_seq_to_set();
    vstd::seq_lib::seq_to_set_is_finite(names(list));
}

/// The set of names of any list is finite.
pub proof fn lemma_name_set_finite(list: Seq<String>)
    ensures
        name_set(list).finite(),
{
    vstd::seq_lib::seq_to_set_is_finite(names(list));
}

/// A name is in the set exactly where some entry has its text.
pub proof fn lemma_name_set_contains(list: Seq<String>, name: Seq<char>)
    ensures
        name_set(list).contains(name) <==> exists|i: int|
            0 <= i < list.len() && (#[trigger] list[i])@ == name,
{
    let texts = names(list);
    if name_set(list).contains(name) {
        assert(texts.contains(name));
        let i = choose|i: int| 0 <= i < texts.len() && texts[i] == name;
        assert(list[i]@ == name);
    }
    if exists|i: int| 0 <= i < list.len() && (#[trigger] list[i])@ == name {
        let i = choose|i: int| 0 <= i < list.len() && (#[trigger] list[i])@ == name;
        assert(texts[i] == name);
        assert(texts.contains(name));
    }
}

/// Where `name` first stands in `list`.
pub fn index_of(list: &Vec<String>, name: &String) -> (at: Option<usize>)
    ensures
        match at {
            Some(i) => i < list.len() && list[i as int]@ == name@ && forall|j: int|
                0 <= j < i ==> (#[trigger] list[j])@ != name@,
            None => forall|j: int| 0 <= j < list.len() ==> (#[trigger] list[j])@ != name@,
        },
{
    let mut i: usize = 0;
    while i < list.len()
        invariant
            i <= list.len(),
            forall|j: int| 0 <= j < i ==> (#[trigger] list[j])@ != name@,
        decreases list.len() - i,
    {
        if list[i] == *name {
            return Some(i);
        }
        i = i + 1;
    }
    None
}

/// Whether `name` stands in `list`.
pub fn holds(list: &Vec<String>, name: &String) -> (found: bool)
    ensures
        found == name_set(list@).contains(name@),
{
    proof {
        lemma_name_set_contains(list@, name@);
    }
    index_of(list, name).is_some()
}

/// Whether no name stands twice in `list`.
pub fn all_distinct(list: &Vec<String>) -> (ok: bool)
    ensures
        ok == names(list@).no_duplicates(),
{
    let mut i: usize = 0;
    while i < list.len()
        invariant
            i <= list.len(),
            forall|a: int, b: int| 0 <= a < b < i ==> (#[trigger] list[a])@ != (#[trigger] list[b])@,
        decreases list.len() - i,
    {
        let mut k: usize = 0;
        while k < i
            invariant
                k <= i < list.len(),
                forall|a: int| 0 <= a < k ==> (#[trigger] list[a])@ != list[i as int]@,
            decreases i - k,
        {
            if list[k] == list[i] {
                proof {
                    let texts = names(list@);
                    assert(texts[k as int] == texts[i as int]);
                }
                return false;
            }
            k = k + 1;
        }
        i = i + 1;
    }
    proof {
        let texts = names(list@);
        assert forall|a: int, b: int|
            0 <= a < texts.len() && 0 <= b < texts.len() && a != b implies texts[a] != texts[b] by {
            if a < b {
                assert(list[a]@ != list[b]@);
            } else {
                assert(list[b]@ != list[a]@);
            }
        }
    }
    true
}

/// Whether the two lists share no name.
pub fn share_none(left: &Vec<String>, right: &Vec<String>) -> (ok: bool)
    ensures
        ok == name_set(left@).disjoint(name_set(right@)),
{
    let mut i: usize = 0;
    while i < left.len()
        invariant
            i <= left.len(),
            forall|a: int| 0 <= a < i ==> !name_set(right@).contains((#[trigger] left[a])@),
        decreases left.len() - i,
    {
        if holds(right, &left[i]) {
            proof {
                lemma_name_set_contains(left@, left[i as int]@);
            }
            return false;
        }
        i = i + 1;
    }
    proof {
        assert forall|name: Seq<char>|
            !(name_set(left@).contains(name) && name_set(right@).contains(name)) by {
            lemma_name_set_contains(left@, name);
        }
    }
    true
}

/// Whether every name of `list` stands in `first` or in `second`.
pub fn all_within(list: &Vec<String>, first: &Vec<String>, second: &Vec<String>) -> (ok: bool)
    ensures
        ok == name_set(list@).subset_of(name_set(first@).union(name_set(second@))),
{
    let mut i: usize = 0;
    while i < list.len()
        invariant
            i <= list.len(),
            forall|a: int|
                0 <= a < i ==> name_set(first@).union(name_set(second@)).contains(
                    (#[trigger] list[a])@,
                ),
        decreases list.len() - i,
    {
        if !holds(first, &list[i]) && !holds(second, &list[i]) {
            proof {
                lemma_name_set_contains(list@, list[i as int]@);
            }
            return false;
        }
        i = i + 1;
    }
    proof {
        assert forall|name: Seq<char>| name_set(list@).contains(name) implies name_set(
            first@,
        ).union(name_set(second@)).contains(name) by {
            lemma_name_set_contains(list@, name);
        }
    }
    true
}

} // verus!
