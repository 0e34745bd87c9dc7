//! What a board description says: where a peripheral lies in the address
//! space, which accessor names it declares for per-hart registers, and for
//! which hart each name stands.

use crate::hart::HartIdNumber;
use vstd::prelude::*;
use vstd::string::StringSliceAdditionalSpecFns;

verus! {

/// One declaration of a board description: the accessor `name` stands for the
/// register of the hart numbered `hart`, which documentation calls `label`.
#[derive(Clone, Copy, Debug, PartialEq, Eq)]
pub struct HartEntry {
    /// Name of the accessor.
    pub name: &'static str,
    /// Number of the hart.
    pub hart: usize,
    /// How documentation names the hart.
    pub label: &'static str,
}

impl HartEntry {
    /// Declares the accessor `name` for the hart `hart_id`.
    pub fn new<H: HartIdNumber>(name: &'static str, hart_id: H, label: &'static str) -> (entry:
        Self)
        ensures
            entry.name == name,
            entry.hart == hart_id.number_spec(),
            entry.hart <= H::max_hart_id_number_spec(),
            entry.label == label,
    {
        HartEntry { name, hart: hart_id.number(), label }
    }
}

/// Whether `size` bytes from `address` on lie inside the address space.
pub open spec fn block_fits(address: usize, size: usize) -> bool {
    address + size - 1 <= usize::MAX
}

/// Tells whether `size` bytes from `address` on lie inside the address space.
pub fn check_block(address: usize, size: usize) -> (fits: bool)
    requires
        size >= 1,
    ensures
        fits == block_fits(address, size),
{
    address <= usize::MAX - (size - 1)
}

/// Whether `entries` declares an accessor called `name`.
pub open spec fn declares(entries: Seq<HartEntry>, name: Seq<char>) -> bool {
    exists|i: int| 0 <= i < entries.len() && #[trigger] entries[i].name@ == name
}

/// The position of the first declaration of `name` in `entries`: a duplicate
/// further on is never reached.
pub open spec fn first_declaration(entries: Seq<HartEntry>, name: Seq<char>) -> int {
    choose|i: int|
        0 <= i < entries.len() && #[trigger] entries[i].name@ == name && forall|j: int|
            0 <= j < i ==> #[trigger] entries[j].name@ != name
}

/// The hart that the accessor `name` stands for, where `entries` declares it.
pub open spec fn hart_of(entries: Seq<HartEntry>, name: Seq<char>) -> usize {
    entries[first_declaration(entries, name)].hart
}

/// Whether every declaration of `entries` names a hart below `limit`.
pub open spec fn harts_below(entries: Seq<HartEntry>, limit: usize) -> bool {
    forall|i: int| 0 <= i < entries.len() ==> (#[trigger] entries[i]).hart < limit
}

/// Tells whether two names are the same text.
pub fn same_name(a: &str, b: &str) -> (same: bool)
    ensures
        same == (a@ == b@),
{
    let x = a.as_bytes();
    let y = b.as_bytes();
    proof {
        vstd::utf8::encode_utf8_decode_utf8(a@);
        vstd::utf8::encode_utf8_decode_utf8(b@);
    }
    if x.len() != y.len() {
        return false;
    }
    let mut i: usize = 0;
    while i < x.len()
        invariant
            i <= x.len(),
            x.len() == y.len(),
            x@ == a.spec_bytes(),
            y@ == b.spec_bytes(),
            forall|k: int| 0 <= k < i ==> x@[k] == y@[k],
        decreases x.len() - i,
    {
        if x[i] != y[i] {
            return false;
        }
        i += 1;
    }
    assert(x@ =~= y@);
    true
}

/// Tells whether every declaration of `entries` names a hart below `limit`.
pub fn check_harts(entries: &Vec<HartEntry>, limit: usize) -> (ok: bool)
    ensures
        ok == harts_below(entries@, limit),
{
    let mut i: usize = 0;
    while i < entries.len()
        invariant
            i <= entries.len(),
            forall|k: int| 0 <= k < i ==> (#[trigger] entries@[k]).hart < limit,
        decreases entries.len() - i,
    {
        if entries[i].hart >= limit {
            return false;
        }
        i += 1;
    }
    true
}

/// Looks up the accessor `name` in `entries` and gives the hart it stands
/// for: that of the first declaration of the name, or nothing where the name
/// was never declared.
pub fn lookup(entries: &Vec<HartEntry>, name: &str) -> (found: Option<usize>)
    ensures
        found == if declares(entries@, name@) {
            Some(hart_of(entries@, name@))
        } else {
            None
        },
        declares(entries@, name@) ==> 0 <= first_declaration(entries@, name@) < entries@.len(),
{
    let mut i: usize = 0;
    while i < entries.len()
        invariant
            i <= entries.len(),
            forall|k: int| 0 <= k < i ==> #[trigger] entries@[k].name@ != name@,
        decreases entries.len() - i,
    {
        if same_name(entries[i].name, name) {
            proof {
                lemma_first_declaration(entries@, name@, i as int);
            }
            return Some(entries[i].hart);
        }
        i += 1;
    }
    None
}

/// The first declaration of a name is the one that no declaration of the
/// same name comes before.
pub proof fn lemma_first_declaration(entries: Seq<HartEntry>, name: Seq<char>, at: int)
    requires
        0 <= at < entries.len(),
        entries[at].name@ == name,
        forall|j: int| 0 <= j < at ==> #[trigger] entries[j].name@ != name,
    ensures
        declares(entries, name),
        first_declaration(entries, name) == at,
        hart_of(entries, name) == entries[at].hart,
{
    let first: int = first_declaration(entries, name);
    assert(0 <= first < entries.len() && entries[first].name@ == name && forall|j: int|
        0 <= j < first ==> #[trigger] entries[j].name@ != name);
    if first < at {
        assert(entries[first].name@ != name);
    } else if at < first {
        assert(entries[at].name@ != name);
    }
}

/// A name that is declared has a first declaration.
pub proof fn lemma_declared_has_first(entries: Seq<HartEntry>, name: Seq<char>)
    requires
        declares(entries, name),
    ensures
        0 <= first_declaration(entries, name) < entries.len(),
        entries[first_declaration(entries, name)].name@ == name,
        forall|j: int|
            0 <= j < first_declaration(entries, name) ==> #[trigger] entries[j].name@ != name,
{
    let at = choose|i: int| 0 <= i < entries.len() && #[trigger] entries[i].name@ == name;
    lemma_first_at_or_before(entries, name, at);
}

/// A name that is declared at `at` has its first declaration at or before
/// `at`.
pub proof fn lemma_first_at_or_before(entries: Seq<HartEntry>, name: Seq<char>, at: int)
    requires
        0 <= at < entries.len(),
        entries[at].name@ == name,
    ensures
        0 <= first_declaration(entries, name) <= at,
        entries[first_declaration(entries, name)].name@ == name,
        forall|j: int|
            0 <= j < first_declaration(entries, name) ==> #[trigger] entries[j].name@ != name,
    decreases at,
{
    if exists|j: int| 0 <= j < at && #[trigger] entries[j].name@ == name {
        let before = choose|j: int| 0 <= j < at && #[trigger] entries[j].name@ == name;
        lemma_first_at_or_before(entries, name, before);
    } else {
        lemma_first_declaration(entries, name, at);
    }
}

} // verus!
