//! Requested field names, kept per object

use crate::text::{join_strings, joined, owned, string_views};
use vstd::prelude::*;
use vstd::string::StringExecFns;

verus! {

/// The names requested under one key: an object name and, for relationships, whether
/// the relation is fetched lazily.
pub struct Requested {
    /// The object the names belong to
    pub object: Seq<char>,
    /// Whether only identifiers are asked for
    pub lazy: bool,
    /// The names, each once, in the order in which they were first added
    pub names: Seq<Seq<char>>,
}

/// The views of a list of query parameters.
pub open spec fn query_view(query: Seq<(String, String)>) -> Seq<(Seq<char>, Seq<char>)> {
    Seq::new(query.len(), |i: int| (query[i].0@, query[i].1@))
}

/// Whether an entry is kept under the given key.
pub open spec fn has_key(entry: Requested, object: Seq<char>, lazy: bool) -> bool {
    entry.object == object && entry.lazy == lazy
}

/// Whether some entry is kept under the given key.
pub open spec fn holds_key(entries: Seq<Requested>, object: Seq<char>, lazy: bool) -> bool {
    exists|i: int| 0 <= i < entries.len() && has_key(#[trigger] entries[i], object, lazy)
}

/// The place of the entry kept under the given key.
pub open spec fn key_index(entries: Seq<Requested>, object: Seq<char>, lazy: bool) -> int {
    choose|i: int| 0 <= i < entries.len() && has_key(#[trigger] entries[i], object, lazy)
}

/// No key occurs twice, and under each key stands at least one name and no name twice.
pub open spec fn well_formed(entries: Seq<Requested>) -> bool {
    &&& forall|i: int, j: int|
        0 <= i < j < entries.len() ==> !has_key(
            #[trigger] entries[j],
            (#[trigger] entries[i]).object,
            entries[i].lazy,
        )
    &&& forall|i: int| 0 <= i < entries.len() ==> (#[trigger] entries[i]).names.len() > 0
    &&& forall|i: int| 0 <= i < entries.len() ==> (#[trigger] entries[i]).names.no_duplicates()
}

/// Whether every entry is eager: nothing is asked for lazily.
pub open spec fn all_eager(entries: Seq<Requested>) -> bool {
    forall|i: int| 0 <= i < entries.len() ==> !(#[trigger] entries[i]).lazy
}

/// Whether no two query parameters have the same key.
pub open spec fn keys_apart(parameters: Seq<(Seq<char>, Seq<char>)>) -> bool {
    forall|i: int, j: int|
        #![trigger parameters[i], parameters[j]]
        0 <= i < j < parameters.len() ==> parameters[i].0 != parameters[j].0
}

/// The entries after `name` was added under a key: a name that is already there is not
/// added again, a new name goes behind the others of its key, and a new key goes behind
/// the other keys.
pub open spec fn added(
    entries: Seq<Requested>,
    object: Seq<char>,
    lazy: bool,
    name: Seq<char>,
) -> Seq<
    Requested,
> {
    if holds_key(entries, object, lazy) {
        let i = key_index(entries, object, lazy);
        if entries[i].names.contains(name) {
            entries
        } else {
            entries.update(i, Requested { object, lazy, names: entries[i].names.push(name) })
        }
    } else {
        entries.push(Requested { object, lazy, names: seq![name] })
    }
}

/// The entries after the same name was added under the same key a number of times.
pub open spec fn added_times(
    entries: Seq<Requested>,
    object: Seq<char>,
    lazy: bool,
    name: Seq<char>,
    times: nat,
) -> Seq<Requested>
    decreases times,
{
    if times == 0 {
        entries
    } else {
        added(added_times(entries, object, lazy, name, (times - 1) as nat), object, lazy, name)
    }
}

/// The query parameter that one entry is drained into: the object in square brackets
/// behind the prefix of its kind, and the names joined by commas.
pub open spec fn parameter(entry: Requested, eager: Seq<char>, lazy: Seq<char>) -> (Seq<char>, Seq<
    char,
>) {
    (
        (if entry.lazy {
            lazy
        } else {
            eager
        }) + seq!['['] + entry.object + seq![']'],
        joined(entry.names, seq![',']),
    )
}

/// The query parameters that the entries are drained into, one per key.
pub open spec fn parameters(entries: Seq<Requested>, eager: Seq<char>, lazy: Seq<char>) -> Seq<
    (Seq<char>, Seq<char>),
> {
    Seq::new(entries.len(), |i: int| parameter(entries[i], eager, lazy))
}

/// `str` equality: two slices are equal when they hold the same characters.
#[verifier::external_body]
pub(crate) fn same_text(a: &str, b: &str) -> (same: bool)
    ensures
        same == (a@ == b@),
{
    a == b
}

struct FieldSet {
    object: &'static str,
    lazy: bool,
    names: Vec<String>,
}

impl FieldSet {
    spec fn view(&self) -> Requested {
        Requested { object: self.object@, lazy: self.lazy, names: string_views(self.names@) }
    }
}

/// The views of the entries of a storage.
spec fn entry_views(entries: Seq<FieldSet>) -> Seq<Requested> {
    Seq::new(entries.len(), |i: int| entries[i]@)
}

/// A multimap from keys to sets of names, which remembers the order of arrival.
pub struct FieldSets {
    entries: Vec<FieldSet>,
}

impl FieldSets {
    #[verifier::type_invariant]
    spec fn valid(&self) -> bool {
        well_formed(self@)
    }

    /// The keys with their names, in the order in which the keys were first added.
    pub closed spec fn view(&self) -> Seq<Requested> {
        entry_views(self.entries@)
    }

    /// An empty storage.
    pub fn new() -> (sets: Self)
        ensures
            sets@ == Seq::<Requested>::empty(),
    {
        let entries: Vec<FieldSet> = Vec::new();
        assert(entry_views(entries@) =~= Seq::<Requested>::empty());
        FieldSets { entries }
    }

    /// Adds a name under a key.
    pub fn add(&mut self, object: &'static str, lazy: bool, name: String)
        ensures
            well_formed(old(self)@),
            well_formed(final(self)@),
            final(self)@ == added(old(self)@, object@, lazy, name@),
    {
        proof {
            use_type_invariant(&*self);
        }
        let mut entries: Vec<FieldSet> = Vec::new();
        assert(entry_views(entries@) =~= Seq::<Requested>::empty());
        core::mem::swap(&mut self.entries, &mut entries);
        add_entry(&mut entries, object, lazy, name);
        core::mem::swap(&mut self.entries, &mut entries);
    }

    /// Empties the storage into a list of query parameters, one parameter per key.
    pub fn drain(&mut self, eager: &str, lazy: &str, query: &mut Vec<(String, String)>)
        ensures
            well_formed(old(self)@),
            final(self)@ == Seq::<Requested>::empty(),
            query_view(final(query)@) == query_view(old(query)@) + parameters(
                old(self)@,
                eager@,
                lazy@,
            ),
    {
        proof {
            use_type_invariant(&*self);
        }
        let mut entries: Vec<FieldSet> = Vec::new();
        assert(entry_views(entries@) =~= Seq::<Requested>::empty());
        core::mem::swap(&mut self.entries, &mut entries);
        push_parameters(&entries, eager, lazy, query);
    }
}

impl Default for FieldSets {
    fn default() -> (sets: Self)
        ensures
            sets@ == Seq::<Requested>::empty(),
    {
        FieldSets::new()
    }
}

/// Adds a name under a key of a list of entries.
fn add_entry(entries: &mut Vec<FieldSet>, object: &'static str, lazy: bool, name: String)
    requires
        well_formed(entry_views(old(entries)@)),
    ensures
        well_formed(entry_views(final(entries)@)),
        entry_views(final(entries)@) == added(entry_views(old(entries)@), object@, lazy, name@),
{
    let ghost before = entry_views(entries@);
    let n = entries.len();
    let mut i: usize = 0;
    while i < n
        invariant
            i <= n,
            n == entries@.len(),
            entries@ == old(entries)@,
            before == entry_views(entries@),
            well_formed(before),
            forall|j: int| 0 <= j < i ==> !has_key(#[trigger] before[j], object@, lazy),
        decreases n - i,
    {
        if entries[i].lazy == lazy && same_text(entries[i].object, object) {
            assert(has_key(before[i as int], object@, lazy));
            assert(holds_key(before, object@, lazy));
            assert(key_index(before, object@, lazy) == i);
            let found = contains_name(&entries[i].names, &name);
            if !found {
                let ghost names = before[i as int].names;
                entries[i].names.push(name);
                assert(entries@[i as int]@.names =~= names.push(name@));
                assert(entry_views(entries@) =~= added(before, object@, lazy, name@));
                proof {
                    lemma_added_well_formed(before, object@, lazy, name@);
                }
            }
            return ;
        }
        i += 1;
    }
    assert(!holds_key(before, object@, lazy));
    let mut names: Vec<String> = Vec::new();
    names.push(name);
    entries.push(FieldSet { object, lazy, names });
    assert(entries@[n as int]@.names =~= seq![name@]);
    assert(entry_views(entries@) =~= added(before, object@, lazy, name@));
    proof {
        lemma_added_well_formed(before, object@, lazy, name@);
    }
}

/// Appends one query parameter per entry.
fn push_parameters(
    entries: &Vec<FieldSet>,
    eager: &str,
    lazy: &str,
    query: &mut Vec<(String, String)>,
)
    ensures
        query_view(final(query)@) == query_view(old(query)@) + parameters(
            entry_views(entries@),
            eager@,
            lazy@,
        ),
{
    let ghost before = entry_views(entries@);
    let ghost start = query_view(query@);
    let n = entries.len();
    let mut i: usize = 0;
    while i < n
        invariant
            i <= n,
            n == entries@.len(),
            before == entry_views(entries@),
            query_view(query@) == start + parameters(before, eager@, lazy@).take(i as int),
        decreases n - i,
    {
        let entry = &entries[i];
        let mut key = owned(
            if entry.lazy {
                lazy
            } else {
                eager
            },
        );
        key.append("[");
        key.append(entry.object);
        key.append("]");
        let value = join_strings(&entry.names, ",");
        proof {
            reveal_strlit("[");
            reveal_strlit("]");
            reveal_strlit(",");
            assert("["@ =~= seq!['[']);
            assert("]"@ =~= seq![']']);
            assert(","@ =~= seq![',']);
            assert((key@, value@) == parameter(before[i as int], eager@, lazy@));
        }
        let ghost earlier = query_view(query@);
        query.push((key, value));
        proof {
            let all = parameters(before, eager@, lazy@);
            assert(query_view(query@) =~= earlier.push(all[i as int]));
            assert(all.take(i as int + 1) =~= all.take(i as int).push(all[i as int]));
            assert(query_view(query@) =~= start + all.take(i as int + 1));
        }
        i += 1;
    }
    proof {
        let all = parameters(before, eager@, lazy@);
        assert(all.take(n as int) =~= all);
    }
}

/// Whether a name stands in a list of names.
fn contains_name(names: &Vec<String>, name: &String) -> (found: bool)
    ensures
        found == string_views(names@).contains(name@),
{
    let mut i: usize = 0;
    while i < names.len()
        invariant
            i <= names@.len(),
            forall|j: int| 0 <= j < i ==> names@[j]@ != name@,
        decreases names@.len() - i,
    {
        if names[i] == *name {
            assert(string_views(names@)[i as int] == name@);
            return true;
        }
        i += 1;
    }
    false
}

/// Adding a name keeps the entries well formed.
pub proof fn lemma_added_well_formed(
    entries: Seq<Requested>,
    object: Seq<char>,
    lazy: bool,
    name: Seq<char>,
)
    requires
        well_formed(entries),
    ensures
        well_formed(added(entries, object, lazy, name)),
{
    let after = added(entries, object, lazy, name);
    if holds_key(entries, object, lazy) {
        let i = key_index(entries, object, lazy);
        if !entries[i].names.contains(name) {
            let names = entries[i].names.push(name);
            assert(names.no_duplicates());
            assert forall|a: int, b: int| 0 <= a < b < after.len() implies !has_key(
                #[trigger] after[b],
                (#[trigger] after[a]).object,
                after[a].lazy,
            ) by {
                assert(has_key(after[a], entries[a].object, entries[a].lazy));
                assert(has_key(after[b], entries[b].object, entries[b].lazy));
            }
        }
    } else {
        assert forall|a: int, b: int| 0 <= a < b < after.len() implies !has_key(
            #[trigger] after[b],
            (#[trigger] after[a]).object,
            after[a].lazy,
        ) by {
            if b == entries.len() {
                assert(!has_key(entries[a], object, lazy));
            }
        }
        assert(seq![name].no_duplicates());
    }
}

/// Where a name is added, it stands under its key afterwards, and it stands there once.
pub proof fn lemma_added_once(
    entries: Seq<Requested>,
    object: Seq<char>,
    lazy: bool,
    name: Seq<char>,
)
    requires
        well_formed(entries),
    ensures
        holds_key(added(entries, object, lazy, name), object, lazy),
        ({
            let after = added(entries, object, lazy, name);
            let names = after[key_index(after, object, lazy)].names;
            names.contains(name) && names.no_duplicates()
        }),
{
    let after = added(entries, object, lazy, name);
    lemma_added_well_formed(entries, object, lazy, name);
    if holds_key(entries, object, lazy) {
        let i = key_index(entries, object, lazy);
        assert(has_key(after[i], object, lazy));
        lemma_key_index(after, object, lazy, i);
        if !entries[i].names.contains(name) {
            assert(after[i].names.last() == name);
        }
    } else {
        let i = entries.len() as int;
        assert(has_key(after[i], object, lazy));
        lemma_key_index(after, object, lazy, i);
        assert(after[i].names[0] == name);
    }
}

/// Among well formed entries a key stands at one place only.
pub proof fn lemma_key_index(entries: Seq<Requested>, object: Seq<char>, lazy: bool, i: int)
    requires
        well_formed(entries),
        0 <= i < entries.len(),
        has_key(entries[i], object, lazy),
    ensures
        holds_key(entries, object, lazy),
        key_index(entries, object, lazy) == i,
{
    let j = key_index(entries, object, lazy);
    if j < i {
        assert(!has_key(entries[i], entries[j].object, entries[j].lazy));
    } else if i < j {
        assert(!has_key(entries[j], entries[i].object, entries[i].lazy));
    }
}

/// Adding a name that was added before changes nothing.
pub proof fn lemma_add_idempotent(
    entries: Seq<Requested>,
    object: Seq<char>,
    lazy: bool,
    name: Seq<char>,
)
    requires
        well_formed(entries),
    ensures
        added(added(entries, object, lazy, name), object, lazy, name) == added(
            entries,
            object,
            lazy,
            name,
        ),
{
    lemma_added_once(entries, object, lazy, name);
}

/// However often a name is added under a key, the entries are those after the first time.
pub proof fn lemma_add_repeated(
    entries: Seq<Requested>,
    object: Seq<char>,
    lazy: bool,
    name: Seq<char>,
    times: nat,
)
    requires
        well_formed(entries),
        times >= 1,
    ensures
        added_times(entries, object, lazy, name, times) == added(entries, object, lazy, name),
    decreases times,
{
    if times > 1 {
        lemma_add_repeated(entries, object, lazy, name, (times - 1) as nat);
        lemma_add_idempotent(entries, object, lazy, name);
    } else {
        assert(added_times(entries, object, lazy, name, 0) == entries);
    }
}

/// Two different names that are added for a new key stand under it both, and are drained
/// into one parameter with a comma between them.
pub proof fn lemma_add_two_names(
    entries: Seq<Requested>,
    object: Seq<char>,
    lazy: bool,
    first: Seq<char>,
    second: Seq<char>,
)
    requires
        well_formed(entries),
        !holds_key(entries, object, lazy),
        first != second,
    ensures
        added(added(entries, object, lazy, first), object, lazy, second) == entries.push(
            Requested { object, lazy, names: seq![first, second] },
        ),
        joined(seq![first, second], seq![',']) == first + seq![','] + second,
{
    let once = added(entries, object, lazy, first);
    let i = entries.len() as int;
    lemma_added_well_formed(entries, object, lazy, first);
    assert(has_key(once[i], object, lazy));
    lemma_key_index(once, object, lazy, i);
    assert(!seq![first].contains(second));
    assert(seq![first].push(second) =~= seq![first, second]);
    assert(added(once, object, lazy, second) =~= entries.push(
        Requested { object, lazy, names: seq![first, second] },
    ));
    assert(seq![first, second].drop_last() =~= seq![first]);
    reveal_with_fuel(joined, 2);
}

/// Adding a name under one key leaves what stands under the other keys as it is.
pub proof fn lemma_add_keeps_others(
    entries: Seq<Requested>,
    object: Seq<char>,
    lazy: bool,
    name: Seq<char>,
    i: int,
)
    requires
        well_formed(entries),
        0 <= i < entries.len(),
        !has_key(entries[i], object, lazy),
    ensures
        added(entries, object, lazy, name).len() >= entries.len(),
        added(entries, object, lazy, name)[i] == entries[i],
{
}

/// A relation that is asked for eagerly and lazily for the same object stands under two
/// keys, which are drained into two parameters: the two are never merged.
pub proof fn lemma_eager_and_lazy_apart(entries: Seq<Requested>, object: Seq<char>, name: Seq<char>)
    requires
        well_formed(entries),
    ensures
        ({
            let after = added(added(entries, object, false, name), object, true, name);
            let eager = key_index(after, object, false);
            let lazy = key_index(after, object, true);
            &&& holds_key(after, object, false)
            &&& holds_key(after, object, true)
            &&& eager != lazy
            &&& after[eager].names.contains(name)
            &&& after[lazy].names.contains(name)
            &&& parameter(after[eager], "include"@, "relate"@).0 == "include"@ + seq!['[']
                + object + seq![']']
            &&& parameter(after[lazy], "include"@, "relate"@).0 == "relate"@ + seq!['[']
                + object + seq![']']
            &&& parameter(after[eager], "include"@, "relate"@).0 != parameter(
                after[lazy],
                "include"@,
                "relate"@,
            ).0
        }),
{
    let once = added(entries, object, false, name);
    let after = added(once, object, true, name);
    lemma_added_once(entries, object, false, name);
    lemma_added_well_formed(entries, object, false, name);
    lemma_added_once(once, object, true, name);
    lemma_added_well_formed(once, object, true, name);
    let e = key_index(once, object, false);
    assert(has_key(once[e], object, false));
    lemma_add_keeps_others(once, object, true, name, e);
    assert(has_key(after[e], object, false));
    lemma_key_index(after, object, false, e);
    let l = key_index(after, object, true);
    assert(has_key(after[l], object, true));
    reveal_strlit("include");
    reveal_strlit("relate");
    let eager_key = parameter(after[e], "include"@, "relate"@).0;
    let lazy_key = parameter(after[l], "include"@, "relate"@).0;
    assert(eager_key[0] == 'i');
    assert(lazy_key[0] == 'r');
}

/// A name that is added eagerly leaves entries eager that were all eager.
pub proof fn lemma_added_eager(entries: Seq<Requested>, object: Seq<char>, name: Seq<char>)
    requires
        all_eager(entries),
    ensures
        all_eager(added(entries, object, false, name)),
{
}

/// Two objects that differ are drained into keys that differ, whatever the prefixes.
pub proof fn lemma_keys_of_objects(
    first: Requested,
    second: Requested,
    eager: Seq<char>,
    lazy: Seq<char>,
)
    requires
        first.object != second.object,
        first.lazy == second.lazy,
    ensures
        parameter(first, eager, lazy).0 != parameter(second, eager, lazy).0,
{
    let prefix = if first.lazy {
        lazy
    } else {
        eager
    };
    let a = parameter(first, eager, lazy).0;
    let b = parameter(second, eager, lazy).0;
    if a == b {
        assert(a.len() == prefix.len() + first.object.len() + 2);
        assert(b.len() == prefix.len() + second.object.len() + 2);
        assert forall|k: int| 0 <= k < first.object.len() implies first.object[k]
            == second.object[k] by {
            assert(a[prefix.len() + 1 + k] == first.object[k]);
            assert(b[prefix.len() + 1 + k] == second.object[k]);
        }
        assert(first.object =~= second.object);
    }
}

/// Entries that are all eager are drained into parameters of which no two have the same
/// key: there is one parameter for each object.
pub proof fn lemma_eager_keys_apart(entries: Seq<Requested>, eager: Seq<char>, lazy: Seq<char>)
    requires
        well_formed(entries),
        all_eager(entries),
    ensures
        keys_apart(parameters(entries, eager, lazy)),
{
    let drained = parameters(entries, eager, lazy);
    assert forall|i: int, j: int|
        #![trigger drained[i], drained[j]]
        0 <= i < j < drained.len() implies drained[i].0 != drained[j].0 by {
        assert(!has_key(entries[j], entries[i].object, entries[i].lazy));
        lemma_keys_of_objects(entries[i], entries[j], eager, lazy);
    }
}

/// Entries are drained into parameters of which no two have the same key, where the
/// prefix of what is eager and the prefix of what is lazy begin with different letters.
pub proof fn lemma_keys_apart(entries: Seq<Requested>, eager: Seq<char>, lazy: Seq<char>)
    requires
        well_formed(entries),
        eager.len() > 0,
        lazy.len() > 0,
        eager[0] != lazy[0],
    ensures
        keys_apart(parameters(entries, eager, lazy)),
{
    let drained = parameters(entries, eager, lazy);
    assert forall|i: int, j: int|
        #![trigger drained[i], drained[j]]
        0 <= i < j < drained.len() implies drained[i].0 != drained[j].0 by {
        assert(!has_key(entries[j], entries[i].object, entries[i].lazy));
        if entries[i].lazy == entries[j].lazy {
            lemma_keys_of_objects(entries[i], entries[j], eager, lazy);
        } else {
            assert(drained[i].0[0] != drained[j].0[0]);
        }
    }
}

} // verus!
