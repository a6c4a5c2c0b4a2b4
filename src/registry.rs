use vstd::prelude::*;

verus! {

/// A request to declare a pallet in the runtime's registry.
pub struct AddPalletEntry {
    pub index: Option<u8>,
    pub path: String,
    pub name: String,
}

/// The mathematical value of a registry request.
pub struct EntryView {
    pub index: Option<u8>,
    pub path: Seq<char>,
    pub name: Seq<char>,
}

impl View for AddPalletEntry {
    type V = EntryView;

    open spec fn view(&self) -> EntryView {
        EntryView { index: self.index, path: self.path@, name: self.name@ }
    }
}

impl AddPalletEntry {
    pub fn new(index: Option<u8>, path: &str, name: &str) -> (r: Self)
        ensures
            r@ == (EntryView { index: index, path: path@, name: name@ }),
    {
        AddPalletEntry { index, path: path.to_owned(), name: name.to_owned() }
    }
}

/// A pallet already declared in the runtime's registry.
pub struct RegistryRecord {
    pub index: u8,
    pub path: String,
    pub name: String,
}

/// The mathematical value of a registry record.
pub struct RecordView {
    pub index: u8,
    pub path: Seq<char>,
    pub name: Seq<char>,
}

impl View for RegistryRecord {
    type V = RecordView;

    open spec fn view(&self) -> RecordView {
        RecordView { index: self.index, path: self.path@, name: self.name@ }
    }
}

pub open spec fn records_view(v: Seq<RegistryRecord>) -> Seq<RecordView> {
    v.map_values(|r: RegistryRecord| r@)
}

/// Why a new entry cannot be placed in the registry.
#[derive(Debug, Clone, Copy, PartialEq, Eq, Structural)]
pub enum PlacementError {
    /// The requested name is already declared.
    NameConflict,
    /// The requested index is already occupied.
    IndexConflict,
    /// No index is left above the largest one in use.
    IndexExhausted,
}

pub open spec fn name_taken(reg: Seq<RecordView>, name: Seq<char>) -> bool {
    exists|i: int| 0 <= i < reg.len() && #[trigger] reg[i].name == name
}

pub open spec fn index_taken(reg: Seq<RecordView>, k: u8) -> bool {
    exists|i: int| 0 <= i < reg.len() && #[trigger] reg[i].index == k
}

/// The largest index in use, or -1 for an empty registry.
pub open spec fn max_index(reg: Seq<RecordView>) -> int
    decreases reg.len(),
{
    if reg.len() == 0 {
        -1
    } else {
        let m = max_index(reg.drop_last());
        if reg.last().index > m {
            reg.last().index as int
        } else {
            m
        }
    }
}

/// The index a new entry receives, or why it is refused. A name conflict
/// is reported whatever the index.
pub open spec fn placement(reg: Seq<RecordView>, e: EntryView) -> Result<u8, PlacementError> {
    if name_taken(reg, e.name) {
        Err(PlacementError::NameConflict)
    } else {
        match e.index {
            Some(k) => if index_taken(reg, k) {
                Err(PlacementError::IndexConflict)
            } else {
                Ok(k)
            },
            None => if max_index(reg) >= 255 {
                Err(PlacementError::IndexExhausted)
            } else {
                Ok((max_index(reg) + 1) as u8)
            },
        }
    }
}

pub(crate) proof fn lemma_max_index_bounds(reg: Seq<RecordView>)
    ensures
        -1 <= max_index(reg) <= 255,
        reg.len() == 0 <==> max_index(reg) == -1,
        forall|i: int| 0 <= i < reg.len() ==> #[trigger] reg[i].index <= max_index(reg),
    decreases reg.len(),
{
    if reg.len() > 0 {
        lemma_max_index_bounds(reg.drop_last());
        assert forall|i: int| 0 <= i < reg.len() implies #[trigger] reg[i].index <= max_index(reg) by {
            if i < reg.len() - 1 {
                assert(reg.drop_last()[i] == reg[i]);
            }
        }
    }
}

/// The largest index in the registry plus one (zero when it is empty).
fn next_index(registry: &Vec<RegistryRecord>) -> (r: u16)
    ensures
        r as int == max_index(records_view(registry@)) + 1,
{
    let ghost rv = records_view(registry@);
    let mut next: u16 = 0;
    let mut i: usize = 0;
    while i < registry.len()
        invariant
            0 <= i <= registry.len(),
            rv == records_view(registry@),
            next as int == max_index(rv.subrange(0, i as int)) + 1,
        decreases registry.len() - i,
    {
        let ghost pre = rv.subrange(0, i as int);
        let ghost cur = rv.subrange(0, i as int + 1);
        assert(cur.drop_last() =~= pre);
        proof {
            lemma_max_index_bounds(pre);
        }
        let k = registry[i].index;
        if k as u16 + 1 > next {
            next = k as u16 + 1;
        }
        i = i + 1;
    }
    assert(rv.subrange(0, registry.len() as int) =~= rv);
    next
}

/// Computes where a new entry goes in the registry, refusing a name or an
/// index that is already in use.
pub fn place_entry(registry: &Vec<RegistryRecord>, entry: &AddPalletEntry) -> (r: Result<u8, PlacementError>)
    ensures
        r == placement(records_view(registry@), entry@),
{
    let ghost rv = records_view(registry@);
    let mut i: usize = 0;
    while i < registry.len()
        invariant
            0 <= i <= registry.len(),
            rv == records_view(registry@),
            forall|j: int| 0 <= j < i ==> rv[j].name != entry.name@,
        decreases registry.len() - i,
    {
        if registry[i].name == entry.name {
            assert(rv[i as int].name == entry.name@);
            return Err(PlacementError::NameConflict);
        }
        i = i + 1;
    }
    assert(!name_taken(rv, entry.name@));
    let requested: Option<u8> = entry.index;
    match requested {
        Some(k) => {
            let mut j: usize = 0;
            while j < registry.len()
                invariant
                    0 <= j <= registry.len(),
                    rv == records_view(registry@),
                    forall|m: int| 0 <= m < j ==> rv[m].index != k,
                    !name_taken(rv, entry.name@),
                    entry.index == Some(k),
                decreases registry.len() - j,
            {
                if registry[j].index == k {
                    assert(rv[j as int].index == k);
                    assert(index_taken(rv, k));
                    return Err(PlacementError::IndexConflict);
                }
                j = j + 1;
            }
            Ok(k)
        },
        None => {
            let next = next_index(registry);
            if next > 255 {
                Err(PlacementError::IndexExhausted)
            } else {
                Ok(next as u8)
            }
        },
    }
}

/// A name that the registry already declares is refused with a name
/// conflict, whether an index is requested or not and whether it is free.
pub proof fn lemma_name_conflict_regardless_of_index(reg: Seq<RecordView>, e: EntryView)
    requires
        name_taken(reg, e.name),
    ensures
        placement(reg, e) == Err::<u8, PlacementError>(PlacementError::NameConflict),
        forall|k: Option<u8>|
            #[trigger] placement(reg, EntryView { index: k, ..e })
                == Err::<u8, PlacementError>(PlacementError::NameConflict),
{
}

/// Without an explicit index, a new entry is placed one above the largest
/// index in use, and that index was free.
pub proof fn lemma_allocated_index_is_free(reg: Seq<RecordView>, e: EntryView)
    requires
        e.index is None,
        placement(reg, e) is Ok,
    ensures
        placement(reg, e)->Ok_0 == max_index(reg) + 1,
        !index_taken(reg, placement(reg, e)->Ok_0),
{
    lemma_max_index_bounds(reg);
}

} // verus!
