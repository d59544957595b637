//! The reconciler: given the desired addresses and the existing record ids
//! of each family, compute the ordered operations that make the remote
//! record set match, and drive their fail-fast execution.
//!
//! Pairing is positional: desired address `i` is written into existing
//! record `i` as long as both sequences last, then the surplus side is
//! created or deleted. A disabled family contributes no operations at all.

use vstd::prelude::*;

use crate::config::Config;
use crate::dns::{classifies, ids_of, lemma_ids_of_sound, AddressFamily, RecordIDs, RemoteRecord};
use crate::exit_code::{ApiFailureKind, ErrorClass, ExitCodeError};
use crate::interface::{Addrs, Ipv4Address, Ipv6Address};

verus! {

/// The address content an operation writes: a tagged variant over the two
/// families.
#[derive(Clone, Copy, PartialEq, Eq, Structural, Debug)]
pub enum RecordAddress {
    V4(Ipv4Address),
    V6(Ipv6Address),
}

impl RecordAddress {
    /// The family the content belongs to.
    pub open spec fn family(self) -> AddressFamily {
        match self {
            RecordAddress::V4(_) => AddressFamily::V4,
            RecordAddress::V6(_) => AddressFamily::V6,
        }
    }
}

/// One remote mutation the reconciler has decided on. Updates and creates
/// carry the address to write; updates and deletes carry the id of the
/// record they target. Every operation is tagged with its family.
#[derive(Clone, PartialEq, Eq, Debug)]
pub enum Op {
    Update { family: AddressFamily, record_id: String, content: RecordAddress },
    Create { family: AddressFamily, content: RecordAddress },
    Delete { family: AddressFamily, record_id: String },
}

/// The mathematical value of an [`Op`]: record ids as character sequences.
pub enum OpView {
    Update { family: AddressFamily, record_id: Seq<char>, content: RecordAddress },
    Create { family: AddressFamily, content: RecordAddress },
    Delete { family: AddressFamily, record_id: Seq<char> },
}

impl OpView {
    /// The family an operation is tagged with.
    pub open spec fn family(self) -> AddressFamily {
        match self {
            OpView::Update { family, .. } => family,
            OpView::Create { family, .. } => family,
            OpView::Delete { family, .. } => family,
        }
    }
}

impl View for Op {
    type V = OpView;

    open spec fn view(&self) -> OpView {
        match *self {
            Op::Update { family, record_id, content } => OpView::Update {
                family,
                record_id: record_id@,
                content,
            },
            Op::Create { family, content } => OpView::Create { family, content },
            Op::Delete { family, record_id } => OpView::Delete { family, record_id: record_id@ },
        }
    }
}

/// The views of a sequence of operations.
pub open spec fn ops_view(ops: Seq<Op>) -> Seq<OpView> {
    ops.map_values(|op: Op| op@)
}

/// The operations one family gets: an update of existing record `i` to
/// desired address `i` while both sequences last; then a create for each
/// desired address beyond the existing ids, or a delete for each existing
/// id beyond the desired addresses. Exactly `max(len(desired),
/// len(existing))` operations, in that order.
pub open spec fn plan_family_spec(
    fam: AddressFamily,
    desired: Seq<RecordAddress>,
    existing: Seq<Seq<char>>,
) -> Seq<OpView> {
    Seq::new(
        if desired.len() >= existing.len() {
            desired.len()
        } else {
            existing.len()
        },
        |i: int|
            if i < desired.len() && i < existing.len() {
                OpView::Update { family: fam, record_id: existing[i], content: desired[i] }
            } else if i < desired.len() {
                OpView::Create { family: fam, content: desired[i] }
            } else {
                OpView::Delete { family: fam, record_id: existing[i] }
            },
    )
}

/// Compute one family's operations; see [`plan_family_spec`] for exactly
/// what they are.
pub fn plan_family(fam: AddressFamily, desired: &Vec<RecordAddress>, existing: &Vec<String>) -> (r:
    Vec<Op>)
    ensures
        ops_view(r@) == plan_family_spec(fam, desired@, existing.deep_view()),
{
    let len = if desired.len() >= existing.len() {
        desired.len()
    } else {
        existing.len()
    };
    let mut r: Vec<Op> = Vec::new();
    let mut i: usize = 0;
    while i < len
        invariant
            i <= len,
            len == if desired@.len() >= existing@.len() {
                desired@.len()
            } else {
                existing@.len()
            },
            ops_view(r@) == plan_family_spec(fam, desired@, existing.deep_view()).take(i as int),
        decreases len - i,
    {
        let op = if i < desired.len() && i < existing.len() {
            Op::Update { family: fam, record_id: existing[i].clone(), content: desired[i] }
        } else if i < desired.len() {
            Op::Create { family: fam, content: desired[i] }
        } else {
            Op::Delete { family: fam, record_id: existing[i].clone() }
        };
        proof {
            let plan = plan_family_spec(fam, desired@, existing.deep_view());
            assert(op@ == plan[i as int]);
        }
        r.push(op);
        proof {
            let plan = plan_family_spec(fam, desired@, existing.deep_view());
            assert(plan.take(i as int + 1) =~= plan.take(i as int).push(plan[i as int]));
            assert(ops_view(r@) =~= plan.take(i as int + 1));
        }
        i = i + 1;
    }
    proof {
        let plan = plan_family_spec(fam, desired@, existing.deep_view());
        assert(plan.take(plan.len() as int) =~= plan);
    }
    r
}

/// The desired contents of the v4 family: the addresses, tagged.
pub open spec fn wrap_v4(addrs: Seq<Ipv4Address>) -> Seq<RecordAddress> {
    addrs.map_values(|a: Ipv4Address| RecordAddress::V4(a))
}

/// The desired contents of the v6 family: the addresses, tagged.
pub open spec fn wrap_v6(addrs: Seq<Ipv6Address>) -> Seq<RecordAddress> {
    addrs.map_values(|a: Ipv6Address| RecordAddress::V6(a))
}

/// The whole run's operations: the v4 family's plan, then the v6
/// family's, each only if its enable flag is set. A disabled family
/// contributes nothing, whatever desired addresses or stale records it
/// has.
pub open spec fn reconcile_plan_spec(
    cfg: Config,
    v4_addrs: Seq<Ipv4Address>,
    v6_addrs: Seq<Ipv6Address>,
    v4_ids: Seq<Seq<char>>,
    v6_ids: Seq<Seq<char>>,
) -> Seq<OpView> {
    (if cfg.v4 {
        plan_family_spec(AddressFamily::V4, wrap_v4(v4_addrs), v4_ids)
    } else {
        Seq::<OpView>::empty()
    }) + (if cfg.v6 {
        plan_family_spec(AddressFamily::V6, wrap_v6(v6_addrs), v6_ids)
    } else {
        Seq::<OpView>::empty()
    })
}

/// Compute the ordered operations of one reconciliation run; see
/// [`reconcile_plan_spec`] for exactly which they are.
pub fn plan_reconciliation(cfg: &Config, addrs: &Addrs, existing: &RecordIDs) -> (r: Vec<Op>)
    ensures
        ops_view(r@) == reconcile_plan_spec(
            *cfg,
            addrs.v4_addrs@,
            addrs.v6_addrs@,
            existing.v4_ids.deep_view(),
            existing.v6_ids.deep_view(),
        ),
{
    let mut r: Vec<Op> = Vec::new();
    if cfg.v4 {
        let desired = tag_v4(&addrs.v4_addrs);
        let mut ops = plan_family(AddressFamily::V4, &desired, &existing.v4_ids);
        r.append(&mut ops);
    }
    if cfg.v6 {
        let desired = tag_v6(&addrs.v6_addrs);
        let mut ops = plan_family(AddressFamily::V6, &desired, &existing.v6_ids);
        r.append(&mut ops);
    }
    proof {
        assert(ops_view(r@) =~= reconcile_plan_spec(
            *cfg,
            addrs.v4_addrs@,
            addrs.v6_addrs@,
            existing.v4_ids.deep_view(),
            existing.v6_ids.deep_view(),
        ));
    }
    r
}

/// Tag each v4 address as record content.
fn tag_v4(addrs: &Vec<Ipv4Address>) -> (r: Vec<RecordAddress>)
    ensures
        r@ == wrap_v4(addrs@),
{
    let mut r: Vec<RecordAddress> = Vec::new();
    let mut i: usize = 0;
    while i < addrs.len()
        invariant
            i <= addrs@.len(),
            r@ == wrap_v4(addrs@.take(i as int)),
        decreases addrs@.len() - i,
    {
        r.push(RecordAddress::V4(addrs[i]));
        proof {
            assert(r@ =~= wrap_v4(addrs@.take(i as int + 1)));
        }
        i = i + 1;
    }
    proof {
        assert(addrs@.take(addrs@.len() as int) =~= addrs@);
    }
    r
}

/// Tag each v6 address as record content.
fn tag_v6(addrs: &Vec<Ipv6Address>) -> (r: Vec<RecordAddress>)
    ensures
        r@ == wrap_v6(addrs@),
{
    let mut r: Vec<RecordAddress> = Vec::new();
    let mut i: usize = 0;
    while i < addrs.len()
        invariant
            i <= addrs@.len(),
            r@ == wrap_v6(addrs@.take(i as int)),
        decreases addrs@.len() - i,
    {
        r.push(RecordAddress::V6(addrs[i]));
        proof {
            assert(r@ =~= wrap_v6(addrs@.take(i as int + 1)));
        }
        i = i + 1;
    }
    proof {
        assert(addrs@.take(addrs@.len() as int) =~= addrs@);
    }
    r
}

/// Family independence: a disabled family gets no operations at all. With
/// v6 disabled every planned operation is tagged v4, and with v4 disabled
/// every planned operation is tagged v6, whatever records exist remotely.
pub proof fn lemma_family_independence(
    cfg: Config,
    v4_addrs: Seq<Ipv4Address>,
    v6_addrs: Seq<Ipv6Address>,
    v4_ids: Seq<Seq<char>>,
    v6_ids: Seq<Seq<char>>,
)
    ensures
        !cfg.v6 ==> forall|i: int|
            0 <= i < reconcile_plan_spec(cfg, v4_addrs, v6_addrs, v4_ids, v6_ids).len()
                ==> (#[trigger] reconcile_plan_spec(cfg, v4_addrs, v6_addrs, v4_ids, v6_ids)[i]).family()
                == AddressFamily::V4,
        !cfg.v4 ==> forall|i: int|
            0 <= i < reconcile_plan_spec(cfg, v4_addrs, v6_addrs, v4_ids, v6_ids).len()
                ==> (#[trigger] reconcile_plan_spec(cfg, v4_addrs, v6_addrs, v4_ids, v6_ids)[i]).family()
                == AddressFamily::V6,
{
}

/// Every update or delete targets an id taken positionally from the
/// existing ids, and every update or create writes a desired address: the
/// plan invents no targets, so ids excluded from the existing sequences
/// (locked records') are never touched.
pub proof fn lemma_plan_targets(
    fam: AddressFamily,
    desired: Seq<RecordAddress>,
    existing: Seq<Seq<char>>,
    i: int,
)
    requires
        0 <= i < plan_family_spec(fam, desired, existing).len(),
    ensures
        plan_family_spec(fam, desired, existing)[i] matches OpView::Update { record_id, content, .. }
            ==> record_id == existing[i] && content == desired[i],
        plan_family_spec(fam, desired, existing)[i] matches OpView::Delete { record_id, .. }
            ==> record_id == existing[i],
        plan_family_spec(fam, desired, existing)[i] matches OpView::Create { content, .. }
            ==> content == desired[i],
{
}

/// Positional convergence, in general: one family's plan holds exactly
/// `max(len(desired), len(existing))` operations — an update of existing
/// record `i` to desired address `i` while both sequences last, then a
/// create for each surplus desired address, or a delete for each surplus
/// existing id, and nothing else.
pub proof fn lemma_plan_shape(
    fam: AddressFamily,
    desired: Seq<RecordAddress>,
    existing: Seq<Seq<char>>,
)
    ensures
        plan_family_spec(fam, desired, existing).len() == if desired.len() >= existing.len() {
            desired.len()
        } else {
            existing.len()
        },
        forall|i: int|
            0 <= i < desired.len() && i < existing.len()
                ==> #[trigger] plan_family_spec(fam, desired, existing)[i] == (OpView::Update {
                family: fam,
                record_id: existing[i],
                content: desired[i],
            }),
        forall|i: int|
            existing.len() <= i < desired.len()
                ==> #[trigger] plan_family_spec(fam, desired, existing)[i] == (OpView::Create {
                family: fam,
                content: desired[i],
            }),
        forall|i: int|
            desired.len() <= i < existing.len()
                ==> #[trigger] plan_family_spec(fam, desired, existing)[i] == (OpView::Delete {
                family: fam,
                record_id: existing[i],
            }),
{
}

/// The id an operation targets, if it mutates an existing record.
pub open spec fn target_id(op: OpView) -> Option<Seq<char>> {
    match op {
        OpView::Update { record_id, .. } => Some(record_id),
        OpView::Delete { record_id, .. } => Some(record_id),
        OpView::Create { .. } => None,
    }
}

/// Locked records are never targeted: when the run's plan is computed
/// from the classified ids of a record set, every update and every delete
/// targets the id of some non-locked record.
pub proof fn lemma_locked_never_targeted(
    cfg: Config,
    v4_addrs: Seq<Ipv4Address>,
    v6_addrs: Seq<Ipv6Address>,
    records: Seq<RemoteRecord>,
    i: int,
)
    requires
        0 <= i < reconcile_plan_spec(
            cfg,
            v4_addrs,
            v6_addrs,
            ids_of(records, AddressFamily::V4),
            ids_of(records, AddressFamily::V6),
        ).len(),
    ensures
        target_id(
            reconcile_plan_spec(
                cfg,
                v4_addrs,
                v6_addrs,
                ids_of(records, AddressFamily::V4),
                ids_of(records, AddressFamily::V6),
            )[i],
        ) matches Some(id) ==> exists|k: int|
            0 <= k < records.len() && !(#[trigger] records[k]).locked && records[k].id@ == id,
{
    let ids4 = ids_of(records, AddressFamily::V4);
    let ids6 = ids_of(records, AddressFamily::V6);
    let plan4 = if cfg.v4 {
        plan_family_spec(AddressFamily::V4, wrap_v4(v4_addrs), ids4)
    } else {
        Seq::<OpView>::empty()
    };
    let plan6 = if cfg.v6 {
        plan_family_spec(AddressFamily::V6, wrap_v6(v6_addrs), ids6)
    } else {
        Seq::<OpView>::empty()
    };
    let plan = reconcile_plan_spec(cfg, v4_addrs, v6_addrs, ids4, ids6);
    if i < plan4.len() {
        if target_id(plan[i]) is Some {
            lemma_ids_of_sound(records, AddressFamily::V4, i);
            let k = choose|k: int|
                0 <= k < records.len() && classifies(#[trigger] records[k], AddressFamily::V4)
                    && records[k].id@ == ids4[i];
            assert(!records[k].locked && records[k].id@ == target_id(plan[i])->0);
        }
    } else {
        let j = i - plan4.len();
        if target_id(plan[i]) is Some {
            lemma_ids_of_sound(records, AddressFamily::V6, j);
            let k = choose|k: int|
                0 <= k < records.len() && classifies(#[trigger] records[k], AddressFamily::V6)
                    && records[k].id@ == ids6[j];
            assert(!records[k].locked && records[k].id@ == target_id(plan[i])->0);
        }
    }
}

/// A failed reconciliation run: which planned operation failed, counting
/// from zero, and how the provider call went wrong.
#[derive(Clone, Copy, PartialEq, Eq, Structural, Debug)]
pub struct RunFailure {
    pub op_index: usize,
    pub kind: ApiFailureKind,
}

impl RunFailure {
    /// The exit-code error owed to the failure: a provider error,
    /// user-actionable exactly when the provider rejected the request.
    pub fn to_exit_error(&self) -> (r: ExitCodeError)
        ensures
            r.class == (ErrorClass::ProviderApi { user_actionable: self.kind is ErrorResponse }),
            r.wf(),
    {
        ExitCodeError::new(
            ErrorClass::ProviderApi { user_actionable: matches!(self.kind, ApiFailureKind::ErrorResponse) },
        )
    }
}

/// Drives a plan's operations strictly in order and fail-fast: the caller
/// applies the operation the runner offers, reports the outcome, and the
/// first failure ends the run — nothing after it is ever offered.
pub struct OpRunner {
    pub ops: Vec<Op>,
    pub next: usize,
    pub failed: bool,
}

impl OpRunner {
    /// The runner never points past its plan, and a failure halts it on
    /// the operation that failed.
    pub open spec fn wf(self) -> bool {
        &&& self.next <= self.ops@.len()
        &&& (self.failed ==> self.next < self.ops@.len())
    }

    /// The index of the operation to attempt next: none once the plan is
    /// exhausted or an operation has failed.
    pub open spec fn current_spec(self) -> Option<int> {
        if !self.failed && self.next < self.ops@.len() {
            Some(self.next as int)
        } else {
            None
        }
    }

    /// The index of the operation the run failed on, if it failed.
    pub open spec fn failed_index(self) -> Option<int> {
        if self.failed {
            Some(self.next as int)
        } else {
            None
        }
    }

    /// A fresh runner over a plan, positioned on its first operation.
    pub fn new(ops: Vec<Op>) -> (r: OpRunner)
        ensures
            r.ops@ == ops@,
            r.next == 0,
            !r.failed,
            r.wf(),
    {
        OpRunner { ops, next: 0, failed: false }
    }

    /// The operation to attempt next, if any.
    pub fn current_index(&self) -> (r: Option<usize>)
        ensures
            r matches Some(i) ==> self.current_spec() == Some(i as int),
            r is None <==> self.current_spec() is None,
    {
        if !self.failed && self.next < self.ops.len() {
            Some(self.next)
        } else {
            None
        }
    }

    /// The operation at a given position of the plan.
    pub fn op_at(&self, i: usize) -> (r: &Op)
        requires
            i < self.ops@.len(),
        ensures
            *r == self.ops@[i as int],
    {
        &self.ops[i]
    }

    /// Record that the current operation was applied: move to the next.
    pub fn op_succeeded(&mut self)
        requires
            old(self).wf(),
            old(self).current_spec() is Some,
        ensures
            final(self).ops@ == old(self).ops@,
            final(self).next == old(self).next + 1,
            !final(self).failed,
            final(self).wf(),
    {
        if self.next < self.ops.len() {
            self.next = self.next + 1;
        }
    }

    /// Record that the current operation failed: the run aborts on it,
    /// and no further operation is offered.
    pub fn op_failed(&mut self)
        requires
            old(self).wf(),
            old(self).current_spec() is Some,
        ensures
            final(self).ops@ == old(self).ops@,
            final(self).next == old(self).next,
            final(self).failed,
            final(self).wf(),
            final(self).current_spec() is None,
            final(self).failed_index() == Some(old(self).next as int),
    {
        self.failed = true;
    }

    /// The failure record of a failed run, naming the operation that
    /// failed by its position in the plan.
    pub fn failure(&self, kind: ApiFailureKind) -> (r: RunFailure)
        requires
            self.failed,
        ensures
            Some(r.op_index as int) == self.failed_index(),
            r.kind == kind,
    {
        RunFailure { op_index: self.next, kind }
    }
}

/// Fail-fast: once an operation has failed, the runner offers no further
/// operation, so the remainder of the plan is never attempted.
pub proof fn lemma_fail_fast(r: OpRunner)
    requires
        r.failed,
    ensures
        r.current_spec() is None,
{
}

} // verus!
