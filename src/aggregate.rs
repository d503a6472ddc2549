//! Aggregate shares and the per-bucket aggregate store.
//!
//! A share counts its reports, XORs their identifiers into a checksum and sums
//! the VDAF output shares element-wise in the VDAF's prime field, through
//! prio's aggregate shares.

use crate::error::DapError;
use crate::messages::TransitionFailure;
use prio::field::{Field128, Field64, FieldPrio2};
use prio::vdaf::{AggregateShare, Aggregatable, OutputShare};
use vstd::prelude::*;

verus! {

/// Modulus of the 64-bit field.
pub const FIELD64_MODULUS: u128 = 18446744069414584321;

/// Modulus of the 128-bit field.
pub const FIELD128_MODULUS: u128 = 340282366920938462946865773367900766209;

/// Modulus of the 32-bit field of the Prio2 VDAF.
pub const FIELD_PRIO2_MODULUS: u128 = 4293918721;

/// The prime field of an aggregate share.
#[derive(Clone, Copy, Debug, PartialEq, Eq, Structural)]
pub enum FieldKind {
    Field64,
    Field128,
    FieldPrio2,
}

/// The prime modulus of a field.
pub open spec fn modulus(k: FieldKind) -> int {
    match k {
        FieldKind::Field64 => FIELD64_MODULUS as int,
        FieldKind::Field128 => FIELD128_MODULUS as int,
        FieldKind::FieldPrio2 => FIELD_PRIO2_MODULUS as int,
    }
}

/// The aggregated VDAF output shares: field elements, each below the modulus.
#[derive(Clone, Debug)]
pub struct VdafAggregateShare {
    pub field: FieldKind,
    pub elems: Vec<u128>,
}

/// An aggregate share.
#[derive(Clone, Debug)]
pub struct DapAggregateShare {
    /// Number of reports aggregated.
    pub report_count: u64,
    /// XOR of the identifiers of the reports aggregated.
    pub checksum: [u8; 32],
    /// The aggregated VDAF output shares, if any report was aggregated.
    pub data: Option<VdafAggregateShare>,
}

/// Mathematical view of an aggregate share.
pub struct AggregateShareView {
    pub report_count: nat,
    pub checksum: Seq<u8>,
    pub data: Option<(FieldKind, Seq<u128>)>,
}

impl View for DapAggregateShare {
    type V = AggregateShareView;

    open spec fn view(&self) -> AggregateShareView {
        AggregateShareView {
            report_count: self.report_count as nat,
            checksum: self.checksum@,
            data: match self.data {
                Some(d) => Some((d.field, d.elems@)),
                None => None,
            },
        }
    }
}

/// Every element lies in the field.
pub open spec fn elems_in_field(k: FieldKind, x: Seq<u128>) -> bool {
    forall|i: int| 0 <= i < x.len() ==> (#[trigger] x[i] as int) < modulus(k)
}

/// A well-formed share view: a count that fits in 64 bits, a 32-byte checksum
/// and field elements.
pub open spec fn share_wf(a: AggregateShareView) -> bool {
    &&& a.report_count <= u64::MAX
    &&& a.checksum.len() == 32
    &&& match a.data {
        Some((k, x)) => elems_in_field(k, x),
        None => true,
    }
}

/// Addition in the field.
pub open spec fn field_add(k: FieldKind, x: u128, y: u128) -> u128 {
    ((x + y) % modulus(k)) as u128
}

/// Element-wise addition in the field.
pub open spec fn add_elems(k: FieldKind, x: Seq<u128>, y: Seq<u128>) -> Seq<u128> {
    Seq::new(x.len(), |i: int| field_add(k, x[i], y[i]))
}

/// Byte-wise XOR.
pub open spec fn xor_bytes(a: Seq<u8>, b: Seq<u8>) -> Seq<u8> {
    Seq::new(a.len(), |i: int| a[i] ^ b[i])
}

/// The share of no report.
pub open spec fn empty_share() -> AggregateShareView {
    AggregateShareView { report_count: 0, checksum: Seq::new(32, |i: int| 0u8), data: None }
}

/// Two shares can be merged: their VDAF shares agree in field and length, and the
/// report count fits in 64 bits.
pub open spec fn can_merge(a: AggregateShareView, b: AggregateShareView) -> bool {
    &&& a.report_count + b.report_count <= u64::MAX
    &&& match (a.data, b.data) {
        (Some((k1, x)), Some((k2, y))) => k1 == k2 && x.len() == y.len(),
        _ => true,
    }
}

/// The merge of two shares: counts add, checksums XOR, VDAF shares add.
pub open spec fn merge_spec(a: AggregateShareView, b: AggregateShareView) -> AggregateShareView {
    AggregateShareView {
        report_count: a.report_count + b.report_count,
        checksum: xor_bytes(a.checksum, b.checksum),
        data: match (a.data, b.data) {
            (None, d) => d,
            (d, None) => d,
            (Some((k, x)), Some((_, y))) => Some((k, add_elems(k, x, y))),
        },
    }
}

/// Relies on prio's `Aggregatable::merge` for `AggregateShare<Field64>`: it fails
/// where the lengths differ, and else adds element-wise in the field. Elements
/// pass through prio's conversions between `Field64` and `u64`.
#[verifier::external_body]
fn merge_field64(x: &Vec<u128>, y: &Vec<u128>) -> (r: Option<Vec<u128>>)
    requires
        elems_in_field(FieldKind::Field64, x@),
        elems_in_field(FieldKind::Field64, y@),
    ensures
        (r is Some) == (x@.len() == y@.len()),
        r matches Some(v) ==> v@ == add_elems(FieldKind::Field64, x@, y@),
{
    let a: Vec<Field64> = x.iter().map(|e| Field64::from(*e as u64)).collect();
    let b: Vec<Field64> = y.iter().map(|e| Field64::from(*e as u64)).collect();
    let mut sum = AggregateShare::from(OutputShare::from(a));
    sum.merge(&AggregateShare::from(OutputShare::from(b))).ok()?;
    Some(sum.as_ref().iter().map(|e| u64::from(*e) as u128).collect())
}

/// Relies on prio's `Aggregatable::merge` for `AggregateShare<Field128>`: it fails
/// where the lengths differ, and else adds element-wise in the field. Elements
/// pass through prio's conversions between `Field128` and `u128`.
#[verifier::external_body]
fn merge_field128(x: &Vec<u128>, y: &Vec<u128>) -> (r: Option<Vec<u128>>)
    requires
        elems_in_field(FieldKind::Field128, x@),
        elems_in_field(FieldKind::Field128, y@),
    ensures
        (r is Some) == (x@.len() == y@.len()),
        r matches Some(v) ==> v@ == add_elems(FieldKind::Field128, x@, y@),
{
    let a: Vec<Field128> = x.iter().map(|e| Field128::from(*e as u128)).collect();
    let b: Vec<Field128> = y.iter().map(|e| Field128::from(*e as u128)).collect();
    let mut sum = AggregateShare::from(OutputShare::from(a));
    sum.merge(&AggregateShare::from(OutputShare::from(b))).ok()?;
    Some(sum.as_ref().iter().map(|e| u128::from(*e) as u128).collect())
}

/// Relies on prio's `Aggregatable::merge` for `AggregateShare<FieldPrio2>`: it fails
/// where the lengths differ, and else adds element-wise in the field. Elements
/// pass through prio's conversions between `FieldPrio2` and `u32`.
#[verifier::external_body]
fn merge_fieldprio2(x: &Vec<u128>, y: &Vec<u128>) -> (r: Option<Vec<u128>>)
    requires
        elems_in_field(FieldKind::FieldPrio2, x@),
        elems_in_field(FieldKind::FieldPrio2, y@),
    ensures
        (r is Some) == (x@.len() == y@.len()),
        r matches Some(v) ==> v@ == add_elems(FieldKind::FieldPrio2, x@, y@),
{
    let a: Vec<FieldPrio2> = x.iter().map(|e| FieldPrio2::from(*e as u32)).collect();
    let b: Vec<FieldPrio2> = y.iter().map(|e| FieldPrio2::from(*e as u32)).collect();
    let mut sum = AggregateShare::from(OutputShare::from(a));
    sum.merge(&AggregateShare::from(OutputShare::from(b))).ok()?;
    Some(sum.as_ref().iter().map(|e| u32::from(*e) as u128).collect())
}

impl DapAggregateShare {
    /// The share of no report.
    pub fn empty_share() -> (r: Self)
        ensures
            r@ == empty_share(),
    {
        let r = DapAggregateShare { report_count: 0, checksum: [0u8; 32], data: None };
        assert(r@.checksum =~= empty_share().checksum);
        r
    }

    /// A copy of the share.
    pub fn copy(&self) -> (r: Self)
        ensures
            r@ == self@,
    {
        DapAggregateShare {
            report_count: self.report_count,
            checksum: self.checksum,
            data: match &self.data {
                Some(d) => Some(d.clone_share()),
                None => None,
            },
        }
    }

    /// Whether no report was aggregated.
    pub fn empty(&self) -> (r: bool)
        ensures
            r == (self.report_count == 0),
    {
        self.report_count == 0
    }

    /// Merge another share into this one. Fails, and changes nothing, where the
    /// VDAF shares differ in field or length or the report count would overflow.
    pub fn merge(&mut self, other: &DapAggregateShare) -> (r: Result<(), DapError>)
        requires
            share_wf(old(self)@),
            share_wf(other@),
        ensures
            (r is Ok) == can_merge(old(self)@, other@),
            r is Ok ==> final(self)@ == merge_spec(old(self)@, other@),
            r is Err ==> final(self)@ == old(self)@,
            share_wf(final(self)@),
    {
        if self.report_count > u64::MAX - other.report_count {
            return Err(DapError::Fatal("report count overflows".to_owned()));
        }
        match (&self.data, &other.data) {
            (Some(x), Some(y)) => {
                if x.field != y.field || x.elems.len() != y.elems.len() {
                    return Err(DapError::Fatal("invalid aggregate share merge".to_owned()));
                }
            },
            _ => {},
        }
        let ghost pre = self@;
        self.report_count = self.report_count + other.report_count;
        let mut i: usize = 0;
        while i < 32
            invariant
                0 <= i <= 32,
                self.checksum@.len() == 32,
                forall|j: int| 0 <= j < i ==> self.checksum@[j] == pre.checksum[j] ^ other.checksum@[j],
                forall|j: int| i <= j < 32 ==> self.checksum@[j] == pre.checksum[j],
                self.report_count == pre.report_count + other.report_count,
                self@.data == pre.data,
            decreases 32 - i,
        {
            self.checksum[i] = self.checksum[i] ^ other.checksum[i];
            i += 1;
        }
        assert(self.checksum@ =~= xor_bytes(pre.checksum, other.checksum@));
        let merged = match (&self.data, &other.data) {
            (Some(x), Some(y)) => Some(add_vdaf_shares(x, y)),
            (None, Some(y)) => Some(y.clone_share()),
            (Some(x), None) => Some(x.clone_share()),
            (None, None) => None,
        };
        self.data = merged;
        Ok(())
    }
}

impl VdafAggregateShare {
    /// A copy of the share.
    pub fn clone_share(&self) -> (r: Self)
        ensures
            r.field == self.field,
            r.elems@ == self.elems@,
    {
        VdafAggregateShare { field: self.field, elems: self.elems.clone() }
    }
}

/// Element-wise sum of two VDAF shares of one field and length.
fn add_vdaf_shares(x: &VdafAggregateShare, y: &VdafAggregateShare) -> (r: VdafAggregateShare)
    requires
        x.field == y.field,
        x.elems@.len() == y.elems@.len(),
        elems_in_field(x.field, x.elems@),
        elems_in_field(y.field, y.elems@),
    ensures
        r.field == x.field,
        r.elems@ == add_elems(x.field, x.elems@, y.elems@),
        elems_in_field(r.field, r.elems@),
{
    let merged = match x.field {
        FieldKind::Field64 => merge_field64(&x.elems, &y.elems),
        FieldKind::Field128 => merge_field128(&x.elems, &y.elems),
        FieldKind::FieldPrio2 => merge_fieldprio2(&x.elems, &y.elems),
    };
    let out = match merged {
        Some(v) => v,
        None => {
            proof {
                assert(false);
            }
            Vec::new()
        },
    };
    assert forall|j: int| 0 <= j < out@.len() implies (#[trigger] out@[j] as int) < modulus(
        x.field,
    ) by {
        vstd::arithmetic::div_mod::lemma_mod_bound(
            x.elems@[j] + y.elems@[j],
            modulus(x.field),
        );
    }
    VdafAggregateShare { field: x.field, elems: out }
}

/// Merging the empty share changes nothing.
pub proof fn lemma_merge_empty(a: AggregateShareView)
    requires
        share_wf(a),
    ensures
        can_merge(a, empty_share()),
        merge_spec(a, empty_share()) == a,
{
    assert forall|i: int| 0 <= i < 32 implies #[trigger] xor_bytes(a.checksum, empty_share().checksum)[i]
        == a.checksum[i] by {
        let x = a.checksum[i];
        assert(x ^ 0u8 == x) by (bit_vector);
    }
    assert(xor_bytes(a.checksum, empty_share().checksum) =~= a.checksum);
}

/// Merging is commutative: the order of two merges does not matter.
pub proof fn lemma_merge_commutative(a: AggregateShareView, b: AggregateShareView)
    requires
        share_wf(a),
        share_wf(b),
        can_merge(a, b),
    ensures
        can_merge(b, a),
        merge_spec(a, b) == merge_spec(b, a),
{
    assert forall|i: int| 0 <= i < 32 implies #[trigger] xor_bytes(a.checksum, b.checksum)[i]
        == xor_bytes(b.checksum, a.checksum)[i] by {
        let x = a.checksum[i];
        let y = b.checksum[i];
        assert(x ^ y == y ^ x) by (bit_vector);
    }
    assert(xor_bytes(a.checksum, b.checksum) =~= xor_bytes(b.checksum, a.checksum));
    match (a.data, b.data) {
        (Some((k, x)), Some((_, y))) => {
            assert(add_elems(k, x, y) =~= add_elems(k, y, x));
        },
        _ => {},
    }
}

/// Merging is associative: how merges are grouped does not matter.
pub proof fn lemma_merge_associative(a: AggregateShareView, b: AggregateShareView, c: AggregateShareView)
    requires
        share_wf(a),
        share_wf(b),
        share_wf(c),
        can_merge(a, b),
        can_merge(merge_spec(a, b), c),
    ensures
        can_merge(b, c),
        can_merge(a, merge_spec(b, c)),
        merge_spec(merge_spec(a, b), c) == merge_spec(a, merge_spec(b, c)),
{
    assert forall|i: int| 0 <= i < 32 implies #[trigger] xor_bytes(xor_bytes(a.checksum, b.checksum), c.checksum)[i]
        == xor_bytes(a.checksum, xor_bytes(b.checksum, c.checksum))[i] by {
        let x = a.checksum[i];
        let y = b.checksum[i];
        let z = c.checksum[i];
        assert((x ^ y) ^ z == x ^ (y ^ z)) by (bit_vector);
    }
    assert(xor_bytes(xor_bytes(a.checksum, b.checksum), c.checksum) =~= xor_bytes(
        a.checksum,
        xor_bytes(b.checksum, c.checksum),
    ));
    match (a.data, b.data, c.data) {
        (Some((k, x)), Some((_, y)), Some((_, z))) => {
            assert forall|i: int| 0 <= i < x.len() implies #[trigger] add_elems(k, add_elems(k, x, y), z)[i]
                == add_elems(k, x, add_elems(k, y, z))[i] by {
                let p = modulus(k);
                vstd::arithmetic::div_mod::lemma_add_mod_noop(x[i] + y[i], z[i] as int, p);
                vstd::arithmetic::div_mod::lemma_add_mod_noop(x[i] as int, y[i] + z[i], p);
                vstd::arithmetic::div_mod::lemma_small_mod(z[i] as nat, p as nat);
                vstd::arithmetic::div_mod::lemma_small_mod(x[i] as nat, p as nat);
                vstd::arithmetic::div_mod::lemma_mod_bound(x[i] + y[i], p);
                vstd::arithmetic::div_mod::lemma_mod_bound(y[i] + z[i], p);
                assert((x[i] + y[i]) + z[i] == x[i] + (y[i] + z[i]));
            }
            assert(add_elems(k, add_elems(k, x, y), z) =~= add_elems(k, x, add_elems(k, y, z)));
        },
        _ => {},
    }
}

/// The record of one bucket in the aggregate store.
#[derive(Clone, Debug)]
pub struct AggregateStoreEntry {
    pub share: DapAggregateShare,
    pub collected: bool,
}

/// Mathematical view of a store entry.
pub struct EntryView {
    pub share: AggregateShareView,
    pub collected: bool,
}

impl View for AggregateStoreEntry {
    type V = EntryView;

    open spec fn view(&self) -> EntryView {
        EntryView { share: self.share@, collected: self.collected }
    }
}

/// The entry after a merge attempt, and whether the attempt succeeded. A
/// collected entry refuses every merge.
pub open spec fn entry_merge_spec(e: EntryView, d: AggregateShareView) -> (bool, EntryView) {
    if e.collected || !can_merge(e.share, d) {
        (false, e)
    } else {
        (true, EntryView { share: merge_spec(e.share, d), collected: false })
    }
}

/// The entry after it is marked collected.
pub open spec fn mark_collected_spec(e: EntryView) -> EntryView {
    EntryView { share: e.share, collected: true }
}

/// The entry after a series of merge attempts.
pub open spec fn entry_merge_all(e: EntryView, ds: Seq<AggregateShareView>) -> EntryView
    decreases ds.len(),
{
    if ds.len() == 0 {
        e
    } else {
        entry_merge_all(entry_merge_spec(e, ds[0]).1, ds.drop_first())
    }
}

impl AggregateStoreEntry {
    /// A fresh entry: the empty share, not collected.
    pub fn new() -> (r: Self)
        ensures
            r@ == (EntryView { share: empty_share(), collected: false }),
    {
        AggregateStoreEntry { share: DapAggregateShare::empty_share(), collected: false }
    }

    pub open spec fn wf(&self) -> bool {
        share_wf(self.share@)
    }

    /// Merge a share into the entry; fails with `BatchCollected` once the entry
    /// is collected.
    pub fn merge(&mut self, delta: &DapAggregateShare) -> (r: Result<(), DapError>)
        requires
            old(self).wf(),
            share_wf(delta@),
        ensures
            final(self).wf(),
            (r is Ok, final(self)@) == entry_merge_spec(old(self)@, delta@),
            old(self).collected ==> r matches Err(DapError::Transition(
                TransitionFailure::BatchCollected,
            )),
    {
        if self.collected {
            return Err(DapError::Transition(TransitionFailure::BatchCollected));
        }
        self.share.merge(delta)
    }

    /// The current share.
    pub fn get(&self) -> (r: &DapAggregateShare)
        ensures
            r@ == self@.share,
    {
        &self.share
    }

    /// Mark the entry collected.
    pub fn mark_collected(&mut self)
        ensures
            final(self)@ == mark_collected_spec(old(self)@),
    {
        self.collected = true;
    }

    /// Whether the entry is collected.
    pub fn check_collected(&self) -> (r: bool)
        ensures
            r == self.collected,
    {
        self.collected
    }
}

/// Marking an entry collected twice is the same as marking it once.
pub proof fn lemma_mark_collected_idempotent(e: EntryView)
    ensures
        mark_collected_spec(mark_collected_spec(e)) == mark_collected_spec(e),
{
}

/// Merging the empty share into an entry that is not collected succeeds and
/// changes nothing.
pub proof fn lemma_entry_merge_empty(e: EntryView)
    requires
        share_wf(e.share),
        !e.collected,
    ensures
        entry_merge_spec(e, empty_share()) == (true, e),
{
    lemma_merge_empty(e.share);
}

/// Once an entry is collected, every later merge attempt fails and the stored
/// share stays as it was.
pub proof fn lemma_collected_frozen(e: EntryView, ds: Seq<AggregateShareView>)
    requires
        e.collected,
    ensures
        entry_merge_all(e, ds) == e,
        forall|i: int| 0 <= i < ds.len() ==> !(#[trigger] entry_merge_spec(e, ds[i])).0,
    decreases ds.len(),
{
    if ds.len() > 0 {
        lemma_collected_frozen(e, ds.drop_first());
    }
}

/// Whether any bucket of a batch span is collected: the batch then overlaps an
/// earlier collection.
pub fn any_collected(collected: &Vec<bool>) -> (r: bool)
    ensures
        r == exists|i: int| 0 <= i < collected@.len() && collected@[i],
{
    let mut i: usize = 0;
    while i < collected.len()
        invariant
            i <= collected@.len(),
            forall|j: int| 0 <= j < i ==> !collected@[j],
        decreases collected@.len() - i,
    {
        if collected[i] {
            return true;
        }
        i += 1;
    }
    false
}

/// The merge of a sequence of shares into the empty share, or `None` where a
/// merge fails.
pub open spec fn merge_seq(shares: Seq<AggregateShareView>) -> Option<AggregateShareView>
    decreases shares.len(),
{
    if shares.len() == 0 {
        Some(empty_share())
    } else {
        match merge_seq(shares.drop_last()) {
            Some(acc) => if can_merge(acc, shares.last()) {
                Some(merge_spec(acc, shares.last()))
            } else {
                None
            },
            None => None,
        }
    }
}

/// The shares of a span, viewed.
pub open spec fn share_views(shares: Seq<DapAggregateShare>) -> Seq<AggregateShareView> {
    Seq::new(shares.len(), |i: int| shares[i]@)
}

/// Merge the shares of the buckets of a span into one.
pub fn merge_all(shares: &Vec<DapAggregateShare>) -> (r: Result<DapAggregateShare, DapError>)
    requires
        forall|i: int| 0 <= i < shares@.len() ==> share_wf(#[trigger] shares@[i]@),
    ensures
        match merge_seq(share_views(shares@)) {
            Some(m) => r matches Ok(s) && s@ == m,
            None => r is Err,
        },
{
    let mut acc = DapAggregateShare::empty_share();
    let mut i: usize = 0;
    while i < shares.len()
        invariant
            i <= shares@.len(),
            forall|j: int| 0 <= j < shares@.len() ==> share_wf(#[trigger] shares@[j]@),
            share_wf(acc@),
            merge_seq(share_views(shares@).subrange(0, i as int)) == Some(acc@),
        decreases shares@.len() - i,
    {
        let ghost views = share_views(shares@);
        assert(views.subrange(0, i as int + 1).drop_last() =~= views.subrange(0, i as int));
        match acc.merge(&shares[i]) {
            Ok(()) => {},
            Err(e) => {
                proof {
                    lemma_merge_seq_fails(views, i as int);
                }
                return Err(e);
            },
        }
        i += 1;
    }
    assert(share_views(shares@).subrange(0, shares@.len() as int) =~= share_views(shares@));
    Ok(acc)
}

/// A merge that fails in a prefix fails for the whole sequence.
proof fn lemma_merge_seq_fails(views: Seq<AggregateShareView>, i: int)
    requires
        0 <= i < views.len(),
        merge_seq(views.subrange(0, i + 1)) is None,
    ensures
        merge_seq(views) is None,
    decreases views.len() - i,
{
    if i + 1 < views.len() {
        assert(views.subrange(0, i + 2).drop_last() =~= views.subrange(0, i + 1));
        lemma_merge_seq_fails(views, i + 1);
    } else {
        assert(views.subrange(0, i + 1) =~= views);
    }
}

} // verus!
