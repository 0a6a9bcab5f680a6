//! The member filter: requested entry names and which were matched.
use vstd::prelude::*;

verus! {

/// One requested member name and whether some entry has matched it.
pub struct FilterEntry {
    pub name: Vec<u8>,
    pub found: bool,
}

/// The requested-name set threaded through one traversal.
pub struct MemberFilter {
    pub entries: Vec<FilterEntry>,
}

impl View for FilterEntry {
    type V = (Seq<u8>, bool);

    open spec fn view(&self) -> (Seq<u8>, bool) {
        (self.name@, self.found)
    }
}

impl View for MemberFilter {
    type V = Seq<(Seq<u8>, bool)>;

    open spec fn view(&self) -> Seq<(Seq<u8>, bool)> {
        self.entries@.map_values(|e: FilterEntry| e@)
    }
}

/// Whether a name passes the filter: an empty filter passes everything,
/// a non-empty one passes exactly the stored names.
pub open spec fn spec_match(f: Seq<(Seq<u8>, bool)>, name: Seq<u8>) -> bool {
    f.len() == 0 || exists|i: int| 0 <= i < f.len() && f[i].0 == name
}

/// The filter after a name was offered: every entry holding that name is
/// marked found, the rest are unchanged.
pub open spec fn spec_mark(f: Seq<(Seq<u8>, bool)>, name: Seq<u8>) -> Seq<(Seq<u8>, bool)> {
    Seq::new(f.len(), |i: int| (f[i].0, f[i].1 || f[i].0 == name))
}

/// Exact byte-sequence equality of two slices.
pub fn bytes_eq(a: &[u8], b: &[u8]) -> (r: bool)
    ensures
        r == (a@ == b@),
{
    if a.len() != b.len() {
        proof {
            assert(a@.len() != b@.len());
        }
        return false;
    }
    let mut i: usize = 0;
    while i < a.len()
        invariant
            i <= a.len(),
            a@.len() == b@.len(),
            forall|j: int| 0 <= j < i ==> a@[j] == b@[j],
        decreases a.len() - i,
    {
        if a[i] != b[i] {
            return false;
        }
        i += 1;
    }
    proof {
        assert(a@ =~= b@);
    }
    true
}

impl MemberFilter {
    /// A filter over the given requested names, none yet found.
    pub fn new(names: Vec<Vec<u8>>) -> (r: MemberFilter)
        ensures
            r@ == names@.map_values(|n: Vec<u8>| (n@, false)),
    {
        let mut entries: Vec<FilterEntry> = Vec::new();
        let mut i: usize = 0;
        while i < names.len()
            invariant
                i <= names.len(),
                entries@.len() == i,
                forall|k: int| 0 <= k < i ==> entries@[k]@ == (names@[k]@, false),
            decreases names.len() - i,
        {
            let name = names[i].clone();
            assert(name@ == names@[i as int]@);
            entries.push(FilterEntry { name, found: false });
            i += 1;
        }
        let r = MemberFilter { entries };
        proof {
            assert(r@ =~= names@.map_values(|n: Vec<u8>| (n@, false)));
        }
        r
    }
}

/// Offers a name to the filter. Returns whether the name passes; marks
/// every entry holding the name as found.
pub fn find_member(filter: &mut MemberFilter, name: &[u8]) -> (r: bool)
    ensures
        r == spec_match(old(filter)@, name@),
        final(filter)@ == spec_mark(old(filter)@, name@),
{
    if filter.entries.len() == 0 {
        proof {
            assert(final(filter)@ =~= spec_mark(old(filter)@, name@));
        }
        return true;
    }
    let mut hit = false;
    let mut i: usize = 0;
    while i < filter.entries.len()
        invariant
            i <= filter.entries.len(),
            filter.entries@.len() == old(filter)@.len(),
            forall|j: int|
                i <= j < filter.entries@.len() ==> filter.entries@[j]@ == old(filter)@[j],
            forall|j: int|
                0 <= j < i ==> filter.entries@[j]@ == (
                old(filter)@[j].0,
                old(filter)@[j].1 || old(filter)@[j].0 == name@,
                ),
            hit == exists|j: int| 0 <= j < i && old(filter)@[j].0 == name@,
        decreases filter.entries.len() - i,
    {
        let matched = bytes_eq(filter.entries[i].name.as_slice(), name);
        if matched {
            proof {
                assert(old(filter)@[i as int].0 == name@);
            }
            filter.entries[i].found = true;
            hit = true;
            proof {
                assert((i as int) < i + 1 && old(filter)@[i as int].0 == name@);
            }
        } else {
            proof {
                assert(old(filter)@[i as int].0 != name@);
            }
        }
        i += 1;
    }
    proof {
        assert(filter@ =~= spec_mark(old(filter)@, name@));
    }
    hit
}

} // verus!
