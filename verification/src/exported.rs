use vstd::prelude::*;
use crate::error::CryptoError;
use crate::interface::ExportedCdiHandle;

verus! {

/// The most CDIs that can be exported at once.
pub const MAX_CDI_HANDLES: usize = 1;

/// Exported CDIs with their handles, as byte sequences, in the order they
/// were exported.
pub type ExportedSlots = Seq<(Seq<u8>, Seq<u8>)>;

/// The CDI kept under `handle`: that of the last slot with this handle.
pub open spec fn lookup_exported(slots: ExportedSlots, handle: Seq<u8>) -> Option<Seq<u8>>
    decreases slots.len(),
{
    if slots.len() == 0 {
        None
    } else if slots.last().1 == handle {
        Some(slots.last().0)
    } else {
        lookup_exported(slots.drop_last(), handle)
    }
}

/// Whether some slot holds `cdi`.
pub open spec fn holds_cdi(slots: ExportedSlots, cdi: Seq<u8>) -> bool {
    exists|i: int| 0 <= i < slots.len() && (#[trigger] slots[i]).0 == cdi
}

/// No CDI is held twice.
pub open spec fn distinct_cdis(slots: ExportedSlots) -> bool {
    forall|i: int, j: int|
        0 <= i < slots.len() && 0 <= j < slots.len() && i != j ==> (#[trigger] slots[i]).0
            != (#[trigger] slots[j]).0
}

/// The error that storing `cdi` meets, if any: a CDI already held is
/// refused first, then a CDI beyond the limit.
pub open spec fn store_refusal(slots: ExportedSlots, cdi: Seq<u8>) -> Option<CryptoError> {
    if holds_cdi(slots, cdi) {
        Some(CryptoError::ExportedCdiHandleDuplicateCdi)
    } else if slots.len() >= MAX_CDI_HANDLES {
        Some(CryptoError::ExportedCdiHandleLimitExceeded)
    } else {
        None
    }
}

/// Compares two byte strings.
fn bytes_equal(a: &[u8], b: &[u8]) -> (r: bool)
    ensures
        r == (a@ == b@),
{
    if a.len() != b.len() {
        return false;
    }
    let mut i: usize = 0;
    while i < a.len()
        invariant
            a@.len() == b@.len(),
            i <= a@.len(),
            forall|j: int| 0 <= j < i ==> a@[j] == b@[j],
        decreases a@.len() - i,
    {
        if a[i] != b[i] {
            return false;
        }
        i += 1;
    }
    assert(a@ =~= b@);
    true
}

/// Copies a byte string.
fn copy_bytes(a: &[u8]) -> (r: Vec<u8>)
    ensures
        r@ == a@,
{
    let mut r: Vec<u8> = Vec::new();
    let mut i: usize = 0;
    while i < a.len()
        invariant
            i <= a@.len(),
            r@ == a@.take(i as int),
        decreases a@.len() - i,
    {
        r.push(a[i]);
        i += 1;
        assert(r@ =~= a@.take(i as int));
    }
    assert(a@.take(i as int) =~= a@);
    r
}

/// The CDIs exported by a back end, each with the handle it is found by.
/// At most `MAX_CDI_HANDLES` are kept, and no CDI twice.
pub struct ExportedCdis {
    slots: Vec<(Vec<u8>, ExportedCdiHandle)>,
}

impl View for ExportedCdis {
    type V = ExportedSlots;

    closed spec fn view(&self) -> ExportedSlots {
        self.slots@.map_values(|slot: (Vec<u8>, ExportedCdiHandle)| (slot.0@, slot.1@))
    }
}

impl ExportedCdis {
    #[verifier::type_invariant]
    spec fn well_formed(&self) -> bool {
        &&& self@.len() <= MAX_CDI_HANDLES
        &&& distinct_cdis(self@)
    }

    /// No CDI exported.
    pub fn new() -> (r: Self)
        ensures
            r@ == Seq::<(Seq<u8>, Seq<u8>)>::empty(),
    {
        let r = ExportedCdis { slots: Vec::new() };
        assert(r@ =~= Seq::<(Seq<u8>, Seq<u8>)>::empty());
        r
    }

    /// Checks whether `cdi` may be stored: it fails with
    /// `ExportedCdiHandleDuplicateCdi` when the CDI is already held, and
    /// otherwise with `ExportedCdiHandleLimitExceeded` when `MAX_CDI_HANDLES`
    /// CDIs are.
    pub fn check_storable(&self, cdi: &[u8]) -> (r: Result<(), CryptoError>)
        ensures
            match store_refusal(self@, cdi@) {
                Some(e) => r == Err::<(), CryptoError>(e),
                None => r is Ok,
            },
            self@.len() <= MAX_CDI_HANDLES,
            distinct_cdis(self@),
    {
        proof {
            use_type_invariant(self);
        }
        let mut i: usize = 0;
        while i < self.slots.len()
            invariant
                i <= self@.len(),
                self@.len() == self.slots@.len(),
                self@.len() <= MAX_CDI_HANDLES,
                distinct_cdis(self@),
                forall|j: int| 0 <= j < i ==> (#[trigger] self@[j]).0 != cdi@,
            decreases self.slots@.len() - i,
        {
            if bytes_equal(self.slots[i].0.as_slice(), cdi) {
                assert(self@[i as int].0 == cdi@);
                return Err(CryptoError::ExportedCdiHandleDuplicateCdi);
            }
            i += 1;
        }
        if self.slots.len() >= MAX_CDI_HANDLES {
            return Err(CryptoError::ExportedCdiHandleLimitExceeded);
        }
        Ok(())
    }

    /// Keeps `cdi` under `handle`.
    pub fn insert(&mut self, cdi: Vec<u8>, handle: ExportedCdiHandle)
        requires
            store_refusal(old(self)@, cdi@) is None,
        ensures
            final(self)@ == old(self)@.push((cdi@, handle@)),
    {
        let ghost old_slots = self@;
        let mut slots: Vec<(Vec<u8>, ExportedCdiHandle)> = Vec::new();
        std::mem::swap(&mut slots, &mut self.slots);
        slots.push((cdi, handle));
        proof {
            let new_slots = slots@.map_values(
                |slot: (Vec<u8>, ExportedCdiHandle)| (slot.0@, slot.1@),
            );
            assert(new_slots =~= old_slots.push((cdi@, handle@)));
        }
        self.slots = slots;
    }

    /// Returns a copy of the CDI kept under `handle` (that of the last slot
    /// with this handle), or fails with `InvalidExportedCdiHandle` when none
    /// is.
    pub fn find(&self, handle: &ExportedCdiHandle) -> (r: Result<Vec<u8>, CryptoError>)
        ensures
            lookup_exported(self@, handle@) matches Some(cdi) ==> (r matches Ok(v) && v@ == cdi),
            lookup_exported(self@, handle@) is None ==> r == Err::<Vec<u8>, CryptoError>(
                CryptoError::InvalidExportedCdiHandle,
            ),
    {
        let mut cdi: Option<Vec<u8>> = None;
        let mut i: usize = 0;
        while i < self.slots.len()
            invariant
                i <= self@.len(),
                self@.len() == self.slots@.len(),
                match cdi {
                    Some(v) => lookup_exported(self@.take(i as int), handle@) == Some(v@),
                    None => lookup_exported(self@.take(i as int), handle@) is None,
                },
            decreases self.slots@.len() - i,
        {
            let (stored_cdi, stored_handle) = &self.slots[i];
            assert(self@.take(i + 1).drop_last() =~= self@.take(i as int));
            if bytes_equal(stored_handle.as_slice(), handle.as_slice()) {
                cdi = Some(copy_bytes(stored_cdi.as_slice()));
            }
            i += 1;
        }
        assert(self@.take(i as int) =~= self@);
        match cdi {
            Some(v) => Ok(v),
            None => Err(CryptoError::InvalidExportedCdiHandle),
        }
    }
}

/// What a read gives back of a write: once a CDI is exported under a handle,
/// the handle finds it, whatever was exported before.
pub proof fn lemma_exported_cdi_found(slots: ExportedSlots, cdi: Seq<u8>, handle: Seq<u8>)
    ensures
        lookup_exported(slots.push((cdi, handle)), handle) == Some(cdi),
{
    assert(slots.push((cdi, handle)).last() == (cdi, handle));
}

/// A handle under which nothing was exported finds nothing.
pub proof fn lemma_unknown_handle_not_found(slots: ExportedSlots, handle: Seq<u8>)
    requires
        forall|i: int| 0 <= i < slots.len() ==> (#[trigger] slots[i]).1 != handle,
    ensures
        lookup_exported(slots, handle) is None,
    decreases slots.len(),
{
    if slots.len() > 0 {
        assert(slots.last() == slots[slots.len() - 1]);
        lemma_unknown_handle_not_found(slots.drop_last(), handle);
    }
}

/// Deriving an exported CDI that is already exported is refused as a
/// duplicate, and leaves the exported CDIs as they were.
pub proof fn lemma_derive_exported_cdi_refuses_duplicate(slots: ExportedSlots, cdi: Seq<u8>, handle: Seq<u8>)
    ensures
        store_refusal(slots.push((cdi, handle)), cdi) == Some(
            CryptoError::ExportedCdiHandleDuplicateCdi,
        ),
{
    let pushed = slots.push((cdi, handle));
    assert(pushed[slots.len() as int].0 == cdi);
}

/// Once `MAX_CDI_HANDLES` CDIs are exported, deriving another CDI is
/// refused as over the limit.
pub proof fn lemma_derive_exported_cdi_limit(slots: ExportedSlots, cdi: Seq<u8>)
    requires
        slots.len() >= MAX_CDI_HANDLES,
        !holds_cdi(slots, cdi),
    ensures
        store_refusal(slots, cdi) == Some(CryptoError::ExportedCdiHandleLimitExceeded),
{
}

/// After one CDI is exported, every later derivation is refused: as a
/// duplicate when it gives the same CDI, and otherwise as over the limit.
pub proof fn lemma_derive_exported_cdi_only_once(first: Seq<u8>, handle: Seq<u8>, cdi: Seq<u8>)
    ensures
        store_refusal(Seq::empty().push((first, handle)), cdi) == (if cdi == first {
            Some(CryptoError::ExportedCdiHandleDuplicateCdi)
        } else {
            Some(CryptoError::ExportedCdiHandleLimitExceeded)
        }),
{
    let slots = Seq::<(Seq<u8>, Seq<u8>)>::empty().push((first, handle));
    assert(slots[0].0 == first);
    if cdi != first {
        assert(!holds_cdi(slots, cdi));
    }
}

/// Deriving a key pair from an exported handle fails with
/// `InvalidExportedCdiHandle` exactly when no exported CDI has that handle.
pub proof fn lemma_derive_key_pair_exported_invalid_iff(slots: ExportedSlots, handle: Seq<u8>)
    ensures
        lookup_exported(slots, handle) is None <==> forall|i: int|
            0 <= i < slots.len() ==> (#[trigger] slots[i]).1 != handle,
    decreases slots.len(),
{
    if slots.len() > 0 {
        lemma_derive_key_pair_exported_invalid_iff(slots.drop_last(), handle);
        assert(slots.last() == slots[slots.len() - 1]);
        assert forall|i: int| 0 <= i < slots.len() - 1 implies #[trigger] slots[i] == slots.drop_last()[i] by {}
        if lookup_exported(slots, handle) is None {
            assert forall|i: int| 0 <= i < slots.len() implies (#[trigger] slots[i]).1 != handle by {
                if i < slots.len() - 1 {
                    assert(slots.drop_last()[i] == slots[i]);
                }
            }
        }
    }
}

/// Storing keeps the limit and the distinctness of the exported CDIs: what a
/// store accepts leaves at most `MAX_CDI_HANDLES` CDIs, none twice.
pub proof fn lemma_store_keeps_invariant(slots: ExportedSlots, cdi: Seq<u8>, handle: Seq<u8>)
    requires
        slots.len() <= MAX_CDI_HANDLES,
        distinct_cdis(slots),
        store_refusal(slots, cdi) is None,
    ensures
        slots.push((cdi, handle)).len() <= MAX_CDI_HANDLES,
        distinct_cdis(slots.push((cdi, handle))),
        holds_cdi(slots.push((cdi, handle)), cdi),
{
    let pushed = slots.push((cdi, handle));
    assert(pushed[slots.len() as int].0 == cdi);
}

} // verus!
