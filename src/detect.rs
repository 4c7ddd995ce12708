use vstd::prelude::*;
use crate::service::PollResult;

verus! {

/// What a snapshot shows of one item: its identifier and its display name.
pub type Entry = (u32, Seq<char>);

/// One item that a provider reports.
#[derive(Debug)]
pub struct Detail {
    pub id: u32,
    pub name: String,
}

pub open spec fn entry_of(d: Detail) -> Entry {
    (d.id, d.name@)
}

pub open spec fn entries_of(v: Seq<Detail>) -> Seq<Entry> {
    v.map_values(|d: Detail| entry_of(d))
}

impl Detail {
    pub fn new(id: u32, name: &str) -> (r: Detail)
        ensures
            entry_of(r) == (id, name@),
    {
        Detail { id, name: String::from_str(name) }
    }

    /// A copy of this item with the same identifier and name.
    pub fn duplicate(&self) -> (r: Detail)
        ensures
            entry_of(r) == entry_of(*self),
    {
        Detail { id: self.id, name: self.name.clone() }
    }
}

/// The identifiers that occur in a sequence of entries.
pub open spec fn ids(s: Seq<Entry>) -> Set<u32> {
    Set::new(|id: u32| exists|k: int| 0 <= k < s.len() && #[trigger] s[k].0 == id)
}

/// No identifier occurs twice.
pub open spec fn unique_ids(s: Seq<Entry>) -> bool {
    forall|i: int, j: int| 0 <= i < s.len() && 0 <= j < s.len() && i != j ==> s[i].0 != s[j].0
}

/// `s` with `e` recorded: the entry with the same identifier replaced in place,
/// or `e` appended.
pub open spec fn insert_entry(s: Seq<Entry>, e: Entry) -> Seq<Entry> {
    if ids(s).contains(e.0) {
        let k = choose|k: int| 0 <= k < s.len() && s[k].0 == e.0;
        s.update(k, e)
    } else {
        s.push(e)
    }
}

/// The entries recorded one after another, starting from nothing.
pub open spec fn collect(s: Seq<Entry>) -> Seq<Entry>
    decreases s.len(),
{
    if s.len() == 0 {
        Seq::empty()
    } else {
        insert_entry(collect(s.drop_last()), s.last())
    }
}

/// The entries of `s` whose flag at the same position is set, in order.
pub open spec fn flagged(s: Seq<Entry>, flags: Seq<bool>) -> Seq<Entry>
    decreases s.len(),
{
    if s.len() == 0 || flags.len() == 0 {
        Seq::empty()
    } else {
        let rest = flagged(s.drop_last(), flags.drop_last());
        if flags.last() {
            rest.push(s.last())
        } else {
            rest
        }
    }
}

/// The entries of `s`, in order, whose identifier is not in `other`.
pub open spec fn entries_outside(s: Seq<Entry>, other: Set<u32>) -> Seq<Entry>
    decreases s.len(),
{
    if s.len() == 0 {
        Seq::empty()
    } else {
        let rest = entries_outside(s.drop_last(), other);
        if other.contains(s.last().0) {
            rest
        } else {
            rest.push(s.last())
        }
    }
}

/// Identifiers free now that were not free before.
pub open spec fn added_ids(previous: Seq<Entry>, current: Seq<Entry>) -> Set<u32> {
    ids(current).difference(ids(previous))
}

/// Identifiers free before that are not free now.
pub open spec fn removed_ids(previous: Seq<Entry>, current: Seq<Entry>) -> Set<u32> {
    ids(previous).difference(ids(current))
}

/// The set of free identifiers differs between the two observations.
pub open spec fn changed(previous: Seq<Entry>, current: Seq<Entry>) -> bool {
    added_ids(previous, current).union(removed_ids(previous, current)) != Set::<u32>::empty()
}

/// The decimal digits of `n`, most significant first.
pub open spec fn decimal(n: nat) -> Seq<char>
    decreases n,
{
    if n < 10 {
        seq![digit_char(n)]
    } else {
        decimal(n / 10).push(digit_char(n % 10))
    }
}

pub open spec fn digit_char(d: nat) -> char {
    if d == 0 {
        '0'
    } else if d == 1 {
        '1'
    } else if d == 2 {
        '2'
    } else if d == 3 {
        '3'
    } else if d == 4 {
        '4'
    } else if d == 5 {
        '5'
    } else if d == 6 {
        '6'
    } else if d == 7 {
        '7'
    } else if d == 8 {
        '8'
    } else {
        '9'
    }
}

/// One line of a listing: ` * <name> -- ID: <id>` and a line break.
pub open spec fn listing_line(e: Entry) -> Seq<char> {
    " * "@ + e.1 + " -- ID: "@ + decimal(e.0 as nat) + "\n"@
}

/// The lines of all entries, in order.
pub open spec fn listing(s: Seq<Entry>) -> Seq<char>
    decreases s.len(),
{
    if s.len() == 0 {
        Seq::empty()
    } else {
        listing(s.drop_last()) + listing_line(s.last())
    }
}

/// The report sent on a change: the newly free items, all free items, the items
/// no longer free, and where they were observed.
pub open spec fn report(previous: Seq<Entry>, current: Seq<Entry>, source: Seq<char>) -> Seq<char> {
    "Frei gewordene Kategorien:\n"@ + listing(entries_outside(current, ids(previous)))
        + "\nAlle freien Kategorien:\n"@ + listing(current) + "\nNicht mehr frei:\n"@
        + listing(entries_outside(previous, ids(current))) + "\nURL: "@ + source + "\n"@
}

/// The items observed free by one poll, each identifier at most once.
#[derive(Debug)]
pub struct Snapshot {
    items: Vec<Detail>,
}

impl Snapshot {
    /// Each identifier occurs at most once.
    pub open spec fn wf(&self) -> bool {
        unique_ids(self@)
    }
}

impl View for Snapshot {
    type V = Seq<Entry>;

    closed spec fn view(&self) -> Seq<Entry> {
        entries_of(self.items@)
    }
}

impl Snapshot {
    pub fn new() -> (r: Snapshot)
        ensures
            r@ == Seq::<Entry>::empty(),
            r.wf(),
    {
        Snapshot { items: Vec::new() }
    }

    pub fn len(&self) -> (r: usize)
        ensures
            r == self@.len(),
    {
        self.items.len()
    }

    /// The item at position `i`.
    pub fn get(&self, i: usize) -> (r: &Detail)
        requires
            i < self@.len(),
        ensures
            entry_of(*r) == self@[i as int],
    {
        &self.items[i]
    }

    /// Whether an item with identifier `id` is in the snapshot.
    pub fn contains_id(&self, id: u32) -> (r: bool)
        ensures
            r == ids(self@).contains(id),
    {
        let mut k: usize = 0;
        while k < self.items.len()
            invariant
                k <= self.items.len(),
                forall|j: int| 0 <= j < k ==> self@[j].0 != id,
            decreases self.items.len() - k,
        {
            if self.items[k].id == id {
                assert(self@[k as int].0 == id);
                return true;
            }
            k += 1;
        }
        proof {
            assert forall|j: int| 0 <= j < self@.len() implies #[trigger] self@[j].0 != id by {}
        }
        false
    }

    /// Records an item: replaces the one with the same identifier in place, or
    /// appends it.
    pub fn insert(&mut self, d: Detail)
        requires
            old(self).wf(),
        ensures
            final(self)@ == insert_entry(old(self)@, entry_of(d)),
            final(self).wf(),
    {
        let mut k: usize = 0;
        while k < self.items.len()
            invariant
                k <= self.items.len(),
                self.items@ == old(self).items@,
                unique_ids(old(self)@),
                forall|j: int| 0 <= j < k ==> old(self)@[j].0 != d.id,
            decreases self.items.len() - k,
        {
            if self.items[k].id == d.id {
                proof {
                    let s = old(self)@;
                    assert(s[k as int].0 == d.id);
                    assert(ids(s).contains(d.id));
                    let c = choose|c: int| 0 <= c < s.len() && s[c].0 == d.id;
                    assert(c == k);
                    assert(entries_of(self.items@.update(k as int, d)) =~= s.update(k as int, entry_of(d)));
                    assert(unique_ids(s.update(k as int, entry_of(d))));
                }
                self.items.set(k, d);
                return;
            }
            k += 1;
        }
        proof {
            let s = old(self)@;
            assert forall|j: int| 0 <= j < s.len() implies #[trigger] s[j].0 != d.id by {}
            assert(!ids(s).contains(d.id));
            assert(entries_of(self.items@.push(d)) =~= s.push(entry_of(d)));
            assert(unique_ids(s.push(entry_of(d))));
        }
        self.items.push(d);
    }

    /// Builds a snapshot from reported items; a later item replaces an earlier
    /// one with the same identifier.
    pub fn from_details(details: Vec<Detail>) -> (r: Snapshot)
        ensures
            r@ == collect(entries_of(details@)),
            r.wf(),
    {
        let mut r = Snapshot::new();
        let mut i: usize = 0;
        let ghost all = entries_of(details@);
        while i < details.len()
            invariant
                i <= details.len(),
                all == entries_of(details@),
                r.wf(),
                r@ == collect(all.take(i as int)),
            decreases details.len() - i,
        {
            let d = details[i].duplicate();
            proof {
                assert(all.take(i as int + 1).drop_last() =~= all.take(i as int));
                assert(all.take(i as int + 1).last() == entry_of(d));
            }
            r.insert(d);
            i += 1;
        }
        proof {
            assert(all.take(all.len() as int) =~= all);
        }
        r
    }
}

/// A detail's entry after pushing one more detail.
proof fn lemma_entries_push(v: Seq<Detail>, d: Detail)
    ensures
        entries_of(v.push(d)) == entries_of(v).push(entry_of(d)),
{
    assert(entries_of(v.push(d)) =~= entries_of(v).push(entry_of(d)));
}

proof fn lemma_outside_none(s: Seq<Entry>, x: Set<u32>)
    ensures
        (entries_outside(s, x).len() == 0) <==> (forall|k: int|
            0 <= k < s.len() ==> x.contains(#[trigger] s[k].0)),
    decreases s.len(),
{
    if s.len() > 0 {
        lemma_outside_none(s.drop_last(), x);
        assert forall|k: int| 0 <= k < s.len() - 1 implies s.drop_last()[k] == s[k] by {}
        if entries_outside(s, x).len() == 0 {
            assert(x.contains(s[s.len() - 1].0));
            assert forall|k: int| 0 <= k < s.len() implies x.contains(#[trigger] s[k].0) by {
                if k < s.len() - 1 {
                    assert(x.contains(s.drop_last()[k].0));
                }
            }
        }
    }
}

/// No entry falls outside `x` exactly when every identifier of `s` is in `x`.
proof fn lemma_outside_empty(s: Seq<Entry>, x: Set<u32>)
    ensures
        (entries_outside(s, x).len() == 0) <==> ids(s).difference(x) == Set::<u32>::empty(),
{
    lemma_outside_none(s, x);
    if entries_outside(s, x).len() == 0 {
        assert(ids(s).difference(x) =~= Set::<u32>::empty());
    } else {
        let k = choose|k: int| 0 <= k < s.len() && !x.contains(#[trigger] s[k].0);
        assert(ids(s).difference(x).contains(s[k].0));
    }
}

proof fn lemma_union_empty(a: Set<u32>, b: Set<u32>)
    ensures
        (a.union(b) == Set::<u32>::empty()) <==> (a == Set::<u32>::empty() && b
            == Set::<u32>::empty()),
{
    if a.union(b) == Set::<u32>::empty() {
        assert(a =~= Set::<u32>::empty()) by {
            assert forall|v: u32| a.contains(v) implies false by {
                assert(a.union(b).contains(v));
            }
        }
        assert(b =~= Set::<u32>::empty()) by {
            assert forall|v: u32| b.contains(v) implies false by {
                assert(a.union(b).contains(v));
            }
        }
    }
    if a == Set::<u32>::empty() && b == Set::<u32>::empty() {
        assert(a.union(b) =~= Set::<u32>::empty());
    }
}

/// The items of `s`, in order, whose identifier does not occur in `other`.
fn items_outside(s: &Snapshot, other: &Snapshot) -> (r: Vec<Detail>)
    ensures
        entries_of(r@) == entries_outside(s@, ids(other@)),
{
    let mut out: Vec<Detail> = Vec::new();
    let mut i: usize = 0;
    while i < s.items.len()
        invariant
            i <= s.items.len(),
            entries_of(out@) == entries_outside(s@.take(i as int), ids(other@)),
        decreases s.items.len() - i,
    {
        proof {
            assert(s@.take(i as int + 1).drop_last() =~= s@.take(i as int));
            assert(s@.take(i as int + 1).last() == s@[i as int]);
        }
        if !other.contains_id(s.items[i].id) {
            let d = s.items[i].duplicate();
            proof {
                lemma_entries_push(out@, d);
            }
            out.push(d);
        }
        i += 1;
    }
    proof {
        assert(s@.take(s@.len() as int) =~= s@);
    }
    out
}

fn append_digit(text: &mut String, d: u32)
    requires
        d < 10,
    ensures
        final(text)@ == old(text)@.push(digit_char(d as nat)),
{
    if d == 0 {
        proof { reveal_strlit("0"); }
        text.append("0");
    } else if d == 1 {
        proof { reveal_strlit("1"); }
        text.append("1");
    } else if d == 2 {
        proof { reveal_strlit("2"); }
        text.append("2");
    } else if d == 3 {
        proof { reveal_strlit("3"); }
        text.append("3");
    } else if d == 4 {
        proof { reveal_strlit("4"); }
        text.append("4");
    } else if d == 5 {
        proof { reveal_strlit("5"); }
        text.append("5");
    } else if d == 6 {
        proof { reveal_strlit("6"); }
        text.append("6");
    } else if d == 7 {
        proof { reveal_strlit("7"); }
        text.append("7");
    } else if d == 8 {
        proof { reveal_strlit("8"); }
        text.append("8");
    } else {
        proof { reveal_strlit("9"); }
        text.append("9");
    }
    assert(final(text)@ =~= old(text)@.push(digit_char(d as nat)));
}

/// Appends the decimal digits of `n`.
pub(crate) fn append_decimal(text: &mut String, n: u32)
    ensures
        final(text)@ == old(text)@ + decimal(n as nat),
    decreases n,
{
    if n >= 10 {
        append_decimal(text, n / 10);
    }
    append_digit(text, n % 10);
    assert(final(text)@ =~= old(text)@ + decimal(n as nat));
}

/// Appends one listing line per item, in order.
fn append_listing(text: &mut String, items: &Vec<Detail>)
    ensures
        final(text)@ == old(text)@ + listing(entries_of(items@)),
{
    let ghost start = text@;
    let mut i: usize = 0;
    while i < items.len()
        invariant
            i <= items.len(),
            text@ == start + listing(entries_of(items@).take(i as int)),
        decreases items.len() - i,
    {
        let ghost before = text@;
        let d = &items[i];
        text.append(" * ");
        text.append(d.name.as_str());
        text.append(" -- ID: ");
        append_decimal(text, d.id);
        text.append("\n");
        proof {
            let es = entries_of(items@);
            assert(es.take(i as int + 1).drop_last() =~= es.take(i as int));
            assert(es.take(i as int + 1).last() == entry_of(*d));
            assert(text@ =~= before + listing_line(entry_of(*d)));
            assert(text@ =~= start + listing(es.take(i as int + 1)));
        }
        i += 1;
    }
    proof {
        assert(entries_of(items@).take(items@.len() as int) =~= entries_of(items@));
    }
}

/// Compares the previous and the current observation of free items and says
/// whether anything changed, and whether any item became free; on a change the
/// text lists the newly free, all free and no longer free items.
pub fn classify(previous: &Snapshot, current: &Snapshot, source: &str) -> (r: PollResult)
    ensures
        r is Unchanged <==> !changed(previous@, current@),
        r is Urgent <==> added_ids(previous@, current@) != Set::<u32>::empty(),
        r is Normal <==> changed(previous@, current@) && added_ids(previous@, current@)
            == Set::<u32>::empty(),
        match r {
            PollResult::Unchanged => true,
            PollResult::Normal(t) => t@ == report(previous@, current@, source@),
            PollResult::Urgent(t) => t@ == report(previous@, current@, source@),
        },
{
    let added = items_outside(current, previous);
    let removed = items_outside(previous, current);
    proof {
        lemma_outside_empty(current@, ids(previous@));
        lemma_outside_empty(previous@, ids(current@));
        lemma_union_empty(added_ids(previous@, current@), removed_ids(previous@, current@));
    }
    if added.len() == 0 && removed.len() == 0 {
        return PollResult::Unchanged;
    }
    let mut text = String::new();
    text.append("Frei gewordene Kategorien:\n");
    append_listing(&mut text, &added);
    text.append("\nAlle freien Kategorien:\n");
    append_listing(&mut text, &current.items);
    text.append("\nNicht mehr frei:\n");
    append_listing(&mut text, &removed);
    text.append("\nURL: ");
    text.append(source);
    text.append("\n");
    proof {
        assert(text@ =~= report(previous@, current@, source@));
    }
    if added.len() == 0 {
        PollResult::Normal(text)
    } else {
        PollResult::Urgent(text)
    }
}

/// The identifiers in exactly one of the two sets.
pub open spec fn symmetric_difference(a: Set<u32>, b: Set<u32>) -> Set<u32> {
    a.difference(b).union(b.difference(a))
}

/// A change is reported exactly when the symmetric difference of the two sets
/// of free identifiers is not empty.
pub proof fn law_unchanged_iff_no_difference(previous: Seq<Entry>, current: Seq<Entry>)
    ensures
        !changed(previous, current) <==> symmetric_difference(ids(previous), ids(current))
            == Set::<u32>::empty(),
{
    assert(added_ids(previous, current).union(removed_ids(previous, current)) =~= symmetric_difference(
        ids(previous),
        ids(current),
    ));
}

/// Comparing an observation with itself never reports a change.
pub proof fn law_same_observation_unchanged(s: Seq<Entry>)
    ensures
        !changed(s, s),
{
    assert(added_ids(s, s).union(removed_ids(s, s)) =~= Set::<u32>::empty());
}

} // verus!
