use vstd::prelude::*;

use crate::converter::{lookup_outcome, slot_outcome, resource_layout, resource_payload, WriteOpConverter};
use crate::encoding::{encode_u64, le_bytes, tag_serialized_size};
use move_core_types::language_storage::StructTag;

use crate::types::{
    ConversionError, Effect, EffectKind, ExistingMetadata, OpShape, SlotMetadata, WriteOp,
};

verus! {

/// One entry of a resource-group batch, with what the state view reported
/// for it.
pub struct GroupChange<K, L> {
    pub tag: K,
    /// The length of the tag's encoding, or an error where it has none.
    pub tag_size: Result<u64, ()>,
    pub effect: Effect<(Vec<u8>, Option<L>)>,
    /// The size of the tag's value in the group before the transaction; read
    /// only where the effect is not `New`.
    pub previous_size: Result<u64, ()>,
}

/// The writes to one resource group: an operation on the group's slot whose
/// bytes encode the group's new size, the new size, and one operation for
/// each tag that the batch touched, in the batch's order.
pub struct GroupWrite<K, L> {
    pub metadata_op: WriteOp,
    pub group_size: u64,
    pub inner_ops: Vec<(K, (WriteOp, Option<L>))>,
}

/// The shape of the operation on one tag of a group, which never carries
/// metadata of its own.
pub open spec fn inner_shape(kind: EffectKind) -> OpShape {
    match kind {
        EffectKind::New => OpShape::Creation,
        EffectKind::Modify => OpShape::Modification,
        EffectKind::Delete => OpShape::Deletion,
    }
}

/// Bytes that a tag's old value is taken to occupy in the group.
pub open spec fn removed_size<K, L>(c: GroupChange<K, L>) -> int {
    if c.effect is New {
        0
    } else {
        c.previous_size->Ok_0 + c.tag_size->Ok_0
    }
}

/// Bytes that a tag's new value occupies in the group.
pub open spec fn added_size<K, L>(c: GroupChange<K, L>) -> int {
    match c.effect {
        Effect::New((data, _)) => data@.len() + c.tag_size->Ok_0,
        Effect::Modify((data, _)) => data@.len() + c.tag_size->Ok_0,
        Effect::Delete => 0,
    }
}

/// The group's size after one change, from size `cur`; every size must stay
/// within `0..=u64::MAX`.
pub open spec fn apply_change<K, L>(cur: int, c: GroupChange<K, L>) -> Result<int, ConversionError> {
    if c.tag_size is Err {
        Err(ConversionError::ValueSerialization)
    } else if !(c.effect is New) && c.previous_size is Err {
        Err(ConversionError::UnknownInvariantViolation)
    } else if cur - removed_size(c) < 0 {
        Err(ConversionError::SpeculativeExecutionAbort)
    } else if cur - removed_size(c) + added_size(c) > u64::MAX {
        Err(ConversionError::SpeculativeExecutionAbort)
    } else {
        Ok(cur - removed_size(c) + added_size(c))
    }
}

/// The group's size after the changes, applied in order from size `cur`.
pub open spec fn fold_changes<K, L>(cur: int, changes: Seq<GroupChange<K, L>>) -> Result<int, ConversionError>
    decreases changes.len(),
{
    if changes.len() == 0 {
        Ok(cur)
    } else {
        match apply_change(cur, changes[0]) {
            Err(e) => Err(e),
            Ok(next) => fold_changes(next, changes.drop_first()),
        }
    }
}

/// The effect that the group's slot undergoes, judged by its size before and
/// after the batch.
pub open spec fn group_effect_kind(pre: int, post: int) -> EffectKind {
    if post == 0 {
        EffectKind::Delete
    } else if pre == 0 {
        EffectKind::New
    } else {
        EffectKind::Modify
    }
}

/// The group's new size, and the shape and metadata of the operation on its
/// slot; or the first error.
pub open spec fn group_outcome<K, L>(
    template: Option<SlotMetadata>,
    lookup: Result<ExistingMetadata, ()>,
    pre_size: Result<u64, ()>,
    changes: Seq<GroupChange<K, L>>,
) -> Result<(int, OpShape, Option<SlotMetadata>), ConversionError> {
    match pre_size {
        Err(_) => Err(ConversionError::UnknownInvariantViolation),
        Ok(pre) => match fold_changes(pre as int, changes) {
            Err(e) => Err(e),
            Ok(post) => match lookup_outcome(template, lookup, group_effect_kind(pre as int, post), false) {
                Err(e) => Err(e),
                Ok((shape, m)) => Ok((post, shape, m)),
            },
        },
    }
}

/// The operation recorded for one tag matches the change on it.
pub open spec fn inner_op_matches<K, L>(op: (K, (WriteOp, Option<L>)), c: GroupChange<K, L>) -> bool {
    &&& op.0 == c.tag
    &&& op.1.0.has_parts(inner_shape(c.effect.kind()), resource_payload(c.effect), None)
    &&& op.1.1 == resource_layout(c.effect)
}

/// One operation for each change, in order.
pub open spec fn inner_ops_match<K, L>(ops: Seq<(K, (WriteOp, Option<L>))>, changes: Seq<GroupChange<K, L>>) -> bool {
    &&& ops.len() == changes.len()
    &&& forall|j: int| 0 <= j < ops.len() ==> inner_op_matches(#[trigger] ops[j], changes[j])
}

/// The payload of the group slot's operation: the encoded size, but none for
/// a deletion.
pub open spec fn size_payload(shape: OpShape, size: int) -> Option<Seq<u8>> {
    if shape == OpShape::Deletion {
        None
    } else {
        Some(le_bytes(size as nat, 8))
    }
}

/// `r` is the group write that `outcome` describes for `changes`.
pub open spec fn group_write_realizes<K, L>(
    r: Result<GroupWrite<K, L>, ConversionError>,
    outcome: Result<(int, OpShape, Option<SlotMetadata>), ConversionError>,
    changes: Seq<GroupChange<K, L>>,
) -> bool {
    match outcome {
        Ok((post, shape, m)) => {
            &&& r is Ok
            &&& r->Ok_0.group_size == post
            &&& r->Ok_0.metadata_op.has_parts(shape, size_payload(shape, post), m)
            &&& inner_ops_match(r->Ok_0.inner_ops@, changes)
        },
        Err(e) => r is Err && r->Err_0 == e,
    }
}

/// `changes` are the entries of `batch`, each with some tag size.
pub open spec fn sized_batch<L>(
    changes: Seq<GroupChange<StructTag, L>>,
    batch: Seq<(StructTag, Effect<(Vec<u8>, Option<L>)>, Result<u64, ()>)>,
) -> bool {
    &&& changes.len() == batch.len()
    &&& forall|j: int| 0 <= j < changes.len() ==> {
        &&& (#[trigger] changes[j]).tag == batch[j].0
        &&& changes[j].effect == batch[j].1
        &&& changes[j].previous_size == batch[j].2
    }
}

/// Bytes taken out of the group by the changes: the old value and tag of
/// each entry that is not `New`.
pub open spec fn total_removed<K, L>(changes: Seq<GroupChange<K, L>>) -> int
    decreases changes.len(),
{
    if changes.len() == 0 {
        0
    } else {
        removed_size(changes[0]) + total_removed(changes.drop_first())
    }
}

/// Bytes put into the group by the changes: the new value and tag of each
/// `New` or `Modify` entry.
pub open spec fn total_added<K, L>(changes: Seq<GroupChange<K, L>>) -> int
    decreases changes.len(),
{
    if changes.len() == 0 {
        0
    } else {
        added_size(changes[0]) + total_added(changes.drop_first())
    }
}

/// Where a batch succeeds, the group's new size is its old size, less the
/// old value and tag of every entry that is not `New`, plus the new value
/// and tag of every `New` or `Modify` entry.
pub proof fn lemma_group_size_formula<K, L>(pre: int, changes: Seq<GroupChange<K, L>>, post: int)
    requires
        fold_changes(pre, changes) == Ok::<int, ConversionError>(post),
    ensures
        post == pre - total_removed(changes) + total_added(changes),
    decreases changes.len(),
{
    if changes.len() > 0 {
        let next = apply_change(pre, changes[0])->Ok_0;
        lemma_group_size_formula(next, changes.drop_first(), post);
    }
}

/// The operation on a group's slot follows the group's size alone: a
/// deletion where the new size is zero, a creation where the group was
/// empty and is not, a modification otherwise; an existing group's metadata
/// is kept, and a new group gets the metadata that new slots get.
pub proof fn lemma_group_slot_shape(template: Option<SlotMetadata>, existing: ExistingMetadata, pre: u64, post: u64)
    ensures
        existing != ExistingMetadata::NotFound && post == 0 ==> slot_outcome(
            template,
            existing,
            group_effect_kind(pre as int, post as int),
            false,
        ) == Ok::<(OpShape, Option<SlotMetadata>), ConversionError>((OpShape::Deletion, existing_metadata(existing))),
        existing != ExistingMetadata::NotFound && pre != 0 && post != 0 ==> slot_outcome(
            template,
            existing,
            group_effect_kind(pre as int, post as int),
            false,
        ) == Ok::<(OpShape, Option<SlotMetadata>), ConversionError>((OpShape::Modification, existing_metadata(existing))),
        existing == ExistingMetadata::NotFound && pre == 0 && post != 0 ==> slot_outcome(
            template,
            existing,
            group_effect_kind(pre as int, post as int),
            false,
        ) == Ok::<(OpShape, Option<SlotMetadata>), ConversionError>((OpShape::Creation, template)),
{
}

/// The metadata that an existing slot carries.
pub open spec fn existing_metadata(existing: ExistingMetadata) -> Option<SlotMetadata> {
    match existing {
        ExistingMetadata::WithMetadata(m) => Some(m),
        _ => None,
    }
}

/// A batch that touches no tag leaves the group's size as it was and records
/// no tag operation.
pub proof fn lemma_empty_batch_keeps_size<K, L>(
    template: Option<SlotMetadata>,
    lookup: Result<ExistingMetadata, ()>,
    pre: u64,
    ops: Seq<(K, (WriteOp, Option<L>))>,
)
    ensures
        fold_changes(pre as int, Seq::<GroupChange<K, L>>::empty()) == Ok::<int, ConversionError>(pre as int),
        group_outcome(template, lookup, Ok(pre), Seq::<GroupChange<K, L>>::empty()) is Ok ==> group_outcome(
            template,
            lookup,
            Ok(pre),
            Seq::<GroupChange<K, L>>::empty(),
        )->Ok_0.0 == pre,
        inner_ops_match(ops, Seq::<GroupChange<K, L>>::empty()) ==> ops.len() == 0,
{
}

/// Where the old value and tag of an entry that is not `New` exceed the
/// size reached before it, the batch is aborted as speculative.
pub proof fn lemma_underflow_aborts<K, L>(pre: int, changes: Seq<GroupChange<K, L>>, i: int, cur: int)
    requires
        0 <= i < changes.len(),
        fold_changes(pre, changes.take(i)) == Ok::<int, ConversionError>(cur),
        changes[i].tag_size is Ok,
        !(changes[i].effect is New),
        changes[i].previous_size is Ok,
        removed_size(changes[i]) > cur,
    ensures
        fold_changes(pre, changes) == Err::<int, ConversionError>(ConversionError::SpeculativeExecutionAbort),
    decreases i,
{
    if i > 0 {
        assert(changes.take(i)[0] == changes[0]);
        assert(changes.take(i).drop_first() =~= changes.drop_first().take(i - 1));
        let next = apply_change(pre, changes[0])->Ok_0;
        lemma_underflow_aborts(next, changes.drop_first(), i - 1, cur);
    }
}

impl WriteOpConverter {
    /// Converts a batch of changes to the tags of one resource group, in the
    /// batch's order. `lookup` is the group slot's metadata, `pre_group_size`
    /// the group's size before the transaction.
    pub fn apply_group_changes<K, L>(
        &self,
        lookup: Result<ExistingMetadata, ()>,
        pre_group_size: Result<u64, ()>,
        group_changes: Vec<GroupChange<K, L>>,
    ) -> (r: Result<GroupWrite<K, L>, ConversionError>)
        ensures
            group_write_realizes(r, group_outcome(self.template(), lookup, pre_group_size, group_changes@), group_changes@),
    {
        let pre = match pre_group_size {
            Err(_) => return Err(ConversionError::UnknownInvariantViolation),
            Ok(pre) => pre,
        };
        let ghost all = group_changes@;
        let mut changes = group_changes;
        let mut inner_ops: Vec<(K, (WriteOp, Option<L>))> = Vec::new();
        let mut cur: u64 = pre;
        let ghost mut i: int = 0;
        while changes.len() > 0
            invariant
                pre_group_size == Ok::<u64, ()>(pre),
                all == group_changes@,
                0 <= i <= all.len(),
                changes@ == all.skip(i),
                fold_changes(pre as int, all) == fold_changes(cur as int, changes@),
                inner_ops@.len() == i,
                forall|j: int| 0 <= j < i ==> inner_op_matches(#[trigger] inner_ops@[j], all[j]),
            decreases changes.len(),
        {
            let ghost before = changes@;
            let c = changes.remove(0);
            proof {
                assert(c == all[i]);
                assert(changes@ =~= all.skip(i + 1));
                assert(before.drop_first() =~= changes@);
                assert(fold_changes(cur as int, before) == match apply_change(cur as int, c) {
                    Err(e) => Err(e),
                    Ok(next) => fold_changes(next, changes@),
                });
            }
            let GroupChange { tag, tag_size, effect, previous_size } = c;
            let tag_size = match tag_size {
                Err(_) => return Err(ConversionError::ValueSerialization),
                Ok(s) => s,
            };
            let is_new = match &effect {
                Effect::New(_) => true,
                _ => false,
            };
            // A tag that held a value first gives back its old size; the
            // running total may be stale, so falling below zero aborts.
            let rest = if is_new {
                cur
            } else {
                let previous = match previous_size {
                    Err(_) => return Err(ConversionError::UnknownInvariantViolation),
                    Ok(p) => p,
                };
                let old_size = match previous.checked_add(tag_size) {
                    None => return Err(ConversionError::SpeculativeExecutionAbort),
                    Some(s) => s,
                };
                match cur.checked_sub(old_size) {
                    None => return Err(ConversionError::SpeculativeExecutionAbort),
                    Some(s) => s,
                }
            };
            let (next, op, layout) = match effect {
                Effect::Delete => (rest, WriteOp::Deletion, None),
                Effect::Modify((data, layout)) => {
                    let added = match (data.len() as u64).checked_add(tag_size) {
                        None => return Err(ConversionError::SpeculativeExecutionAbort),
                        Some(s) => s,
                    };
                    let next = match rest.checked_add(added) {
                        None => return Err(ConversionError::SpeculativeExecutionAbort),
                        Some(s) => s,
                    };
                    (next, WriteOp::Modification(data), layout)
                },
                Effect::New((data, layout)) => {
                    let added = match (data.len() as u64).checked_add(tag_size) {
                        None => return Err(ConversionError::SpeculativeExecutionAbort),
                        Some(s) => s,
                    };
                    let next = match rest.checked_add(added) {
                        None => return Err(ConversionError::SpeculativeExecutionAbort),
                        Some(s) => s,
                    };
                    (next, WriteOp::Creation(data), layout)
                },
            };
            inner_ops.push((tag, (op, layout)));
            cur = next;
            proof {
                i = i + 1;
            }
        }
        // The group's slot takes the operation that a whole group written at
        // once would take, with the group's new size as its bytes.
        let slot_effect: Effect<Vec<u8>> = if cur == 0 {
            Effect::Delete
        } else if pre == 0 {
            Effect::New(Vec::new())
        } else {
            Effect::Modify(Vec::new())
        };
        let slot_op = match self.convert(lookup, slot_effect, false) {
            Err(e) => return Err(e),
            Ok(op) => op,
        };
        let metadata_op = slot_op.with_bytes(encode_u64(cur));
        Ok(GroupWrite { metadata_op, group_size: cur, inner_ops })
    }

    /// Converts a batch of changes to the tags of one resource group. Each
    /// entry holds a tag, its effect, and the size of its value in the group
    /// before the transaction (read only where the effect is not `New`); the
    /// entries come in tag order. Each tag's size is the length of its BCS
    /// encoding.
    pub fn convert_resource_group_v1<L>(
        &self,
        lookup: Result<ExistingMetadata, ()>,
        pre_group_size: Result<u64, ()>,
        group_changes: Vec<(StructTag, Effect<(Vec<u8>, Option<L>)>, Result<u64, ()>)>,
    ) -> (r: Result<GroupWrite<StructTag, L>, ConversionError>)
        ensures
            exists|changes: Seq<GroupChange<StructTag, L>>| {
                &&& sized_batch(changes, group_changes@)
                &&& group_write_realizes(r, group_outcome(self.template(), lookup, pre_group_size, changes), changes)
            },
    {
        let ghost batch = group_changes@;
        let mut entries = group_changes;
        let mut changes: Vec<GroupChange<StructTag, L>> = Vec::new();
        let ghost mut i: int = 0;
        while entries.len() > 0
            invariant
                batch == group_changes@,
                0 <= i <= batch.len(),
                entries@ == batch.skip(i),
                changes@.len() == i,
                forall|j: int| 0 <= j < i ==> {
                    &&& (#[trigger] changes@[j]).tag == batch[j].0
                    &&& changes@[j].effect == batch[j].1
                    &&& changes@[j].previous_size == batch[j].2
                },
            decreases entries.len(),
        {
            let (tag, effect, previous_size) = entries.remove(0);
            proof {
                assert(entries@ =~= batch.skip(i + 1));
            }
            let tag_size = tag_serialized_size(&tag);
            changes.push(GroupChange { tag, tag_size, effect, previous_size });
            proof {
                i = i + 1;
            }
        }
        let ghost sized = changes@;
        let r = self.apply_group_changes(lookup, pre_group_size, changes);
        assert(sized_batch(sized, batch));
        r
    }
}

} // verus!
