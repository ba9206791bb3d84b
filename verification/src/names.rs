use vstd::prelude::*;

verus! {

/// The view of a forward glyph-name table: glyph id and name bytes, in
/// table order.
pub open spec fn entries_view(entries: Seq<(u32, Vec<u8>)>) -> Seq<(u32, Seq<u8>)> {
    entries.map_values(|p: (u32, Vec<u8>)| (p.0, p.1@))
}

/// The first glyph id the table pairs with `name`, scanning forward.
pub open spec fn first_match(entries: Seq<(u32, Seq<u8>)>, name: Seq<u8>) -> Option<u32>
    decreases entries.len(),
{
    if entries.len() == 0 {
        None
    } else if entries.first().1 == name {
        Some(entries.first().0)
    } else {
        first_match(entries.drop_first(), name)
    }
}

/// The glyph-name reverse index: built once from the full forward name
/// table, then read without ever being touched again, so no reader can
/// observe a partially built state.
pub struct GlyphNameIndex {
    pub entries: Vec<(u32, Vec<u8>)>,
}

/// Compares two byte strings.
pub fn bytes_eq(a: &Vec<u8>, b: &[u8]) -> (r: bool)
    ensures
        r == (a@ == b@),
{
    if a.len() != b.len() {
        proof {
            assert(a@.len() != b@.len());
        }
        return false;
    }
    let mut i: usize = 0;
    while i < a.len()
        invariant
            i <= a@.len(),
            a@.len() == b@.len(),
            forall|j: int| 0 <= j < i ==> a@[j] == b@[j],
        decreases a@.len() - i,
    {
        if a[i] != b[i] {
            return false;
        }
        i = i + 1;
    }
    proof {
        assert(a@ =~= b@);
    }
    true
}

impl GlyphNameIndex {
    /// The index's view: the forward table it was built from.
    pub open spec fn table(self) -> Seq<(u32, Seq<u8>)> {
        entries_view(self.entries@)
    }

    /// Wraps the completed forward name table as the reverse index.
    pub fn from_entries(entries: Vec<(u32, Vec<u8>)>) -> (r: GlyphNameIndex)
        ensures
            r.table() == entries_view(entries@),
    {
        GlyphNameIndex { entries }
    }

    /// Looks a name up, returning the first glyph id the table pairs
    /// with it.
    pub fn lookup(&self, name: &[u8]) -> (r: Option<u32>)
        ensures
            r == first_match(self.table(), name@),
    {
        let mut i: usize = 0;
        proof {
            assert(self.table().skip(0) =~= self.table());
        }
        while i < self.entries.len()
            invariant
                i <= self.entries@.len(),
                first_match(self.table(), name@) == first_match(
                    self.table().skip(i as int),
                    name@,
                ),
            decreases self.entries@.len() - i,
        {
            proof {
                assert(self.table().skip(i as int).first() == self.table()[i as int]);
                assert(self.table().skip(i as int).drop_first() =~= self.table().skip(
                    i as int + 1,
                ));
            }
            if bytes_eq(&self.entries[i].1, name) {
                return Some(self.entries[i].0);
            }
            i = i + 1;
        }
        proof {
            assert(self.table().skip(self.table().len() as int) =~= Seq::<(u32, Seq<u8>)>::empty());
        }
        None
    }
}

/// Law: a reverse index is a pure function of the forward name table.
/// Two callers that race to build it first both end with indexes over
/// the same completed table, and every lookup against either index
/// returns the same glyph: neither racer can observe a partially built
/// or diverging map.
pub proof fn lemma_name_index_deterministic(
    a: GlyphNameIndex,
    b: GlyphNameIndex,
    table: Seq<(u32, Seq<u8>)>,
    name: Seq<u8>,
)
    requires
        a.table() == table,
        b.table() == table,
    ensures
        first_match(a.table(), name) == first_match(b.table(), name),
{
}

/// What copying a name into a bounded host buffer yields: at most
/// `capacity - 1` bytes of the name, then a terminating zero, and never
/// more than `capacity` bytes in all.
pub open spec fn truncated_name_spec(name: Seq<u8>, capacity: int) -> Seq<u8>
    recommends
        capacity >= 1,
{
    if name.len() <= capacity - 1 {
        name + seq![0u8]
    } else {
        name.take(capacity - 1) + seq![0u8]
    }
}

/// Copies a glyph name for a host buffer of `capacity` bytes: the name
/// truncated to leave room for the terminating zero that is always
/// appended.
pub fn truncate_name(name: &Vec<u8>, capacity: usize) -> (r: Vec<u8>)
    requires
        capacity >= 1,
    ensures
        r@ == truncated_name_spec(name@, capacity as int),
        r@.len() <= capacity,
        r@.last() == 0u8,
{
    let keep: usize = if name.len() <= capacity - 1 {
        name.len()
    } else {
        capacity - 1
    };
    let mut out: Vec<u8> = Vec::new();
    let mut i: usize = 0;
    while i < keep
        invariant
            i <= keep,
            keep <= name@.len(),
            out@ =~= name@.take(i as int),
        decreases keep - i,
    {
        out.push(name[i]);
        proof {
            assert(out@ =~= name@.take(i as int + 1));
        }
        i = i + 1;
    }
    out.push(0u8);
    proof {
        if name@.len() <= capacity - 1 {
            assert(out@ =~= name@ + seq![0u8]);
        } else {
            assert(out@ =~= name@.take(capacity as int - 1) + seq![0u8]);
        }
    }
    out
}

} // verus!
