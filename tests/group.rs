use move_core_types::account_address::AccountAddress;
use move_core_types::identifier::Identifier;
use move_core_types::language_storage::{StructTag, TypeTag};
use write_op_converter::{
    ConversionError, Effect, ExistingMetadata, GroupChange, SlotMetadata, WriteOp,
    WriteOpConverter,
};

type Layout = String;
type Change = GroupChange<u32, Layout>;

fn tag(module: &str, name: &str, param: TypeTag) -> StructTag {
    StructTag {
        address: AccountAddress::ZERO,
        module: Identifier::new(module).unwrap(),
        name: Identifier::new(name).unwrap(),
        type_params: vec![param],
    }
}

fn tag_a() -> StructTag {
    tag("a", "a", TypeTag::U8)
}

fn tag_b() -> StructTag {
    tag("abcde", "fgh", TypeTag::U64)
}

fn tag_c() -> StructTag {
    tag("abcdex", "fghx", TypeTag::U128)
}

fn size_of(t: &StructTag) -> u64 {
    bcs::to_bytes(t).unwrap().len() as u64
}

fn change(tag: u32, tag_size: u64, effect: Effect<(Vec<u8>, Option<Layout>)>, previous: u64) -> Change {
    GroupChange { tag, tag_size: Ok(tag_size), effect, previous_size: Ok(previous) }
}

fn delete() -> Effect<(Vec<u8>, Option<Layout>)> {
    Effect::Delete
}

#[test]
fn deleting_one_tag_and_creating_another_keeps_metadata() {
    let (s_a, s_b, s_c) = (size_of(&tag_a()), size_of(&tag_b()), size_of(&tag_c()));
    let meta = SlotMetadata::new(100, 100);
    let pre = (s_a + 1) + (s_b + 2);
    let converter = WriteOpConverter::new(false, None);
    let write = converter
        .convert_resource_group_v1(
            Ok(ExistingMetadata::WithMetadata(meta)),
            Ok(pre),
            vec![
                (tag_a(), delete(), Ok(1)),
                (tag_c(), Effect::New((vec![5, 5, 5, 5, 5], None)), Err(())),
            ],
        )
        .unwrap();
    let post = s_b + 2 + s_c + 5;
    assert_eq!(write.group_size, post);
    assert_eq!(
        write.metadata_op,
        WriteOp::ModificationWithMetadata { data: post.to_le_bytes().to_vec(), metadata: meta }
    );
    assert_eq!(write.inner_ops.len(), 2);
    assert_eq!(write.inner_ops[0], (tag_a(), (WriteOp::Deletion, None)));
    assert_eq!(write.inner_ops[1], (tag_c(), (WriteOp::Creation(vec![5, 5, 5, 5, 5]), None)));
}

#[test]
fn new_group_gets_creation_with_template() {
    let s_b = size_of(&tag_b());
    let converter = WriteOpConverter::new(true, Some(77));
    let write = converter
        .convert_resource_group_v1(
            Ok(ExistingMetadata::NotFound),
            Ok(0),
            vec![(tag_b(), Effect::New((vec![2, 2], Some("l".to_string()))), Err(()))],
        )
        .unwrap();
    assert_eq!(write.group_size, s_b + 2);
    assert_eq!(
        write.metadata_op,
        WriteOp::CreationWithMetadata {
            data: (s_b + 2).to_le_bytes().to_vec(),
            metadata: SlotMetadata::new(0, 77),
        }
    );
    assert_eq!(
        write.inner_ops,
        vec![(tag_b(), (WriteOp::Creation(vec![2, 2]), Some("l".to_string())))]
    );
}

#[test]
fn deleting_every_tag_deletes_group_with_metadata() {
    let (s_a, s_b) = (size_of(&tag_a()), size_of(&tag_b()));
    let meta = SlotMetadata::new(100, 100);
    let converter = WriteOpConverter::new(true, Some(1));
    let write = converter
        .convert_resource_group_v1(
            Ok(ExistingMetadata::WithMetadata(meta)),
            Ok(s_a + 1 + s_b + 2),
            vec![(tag_a(), delete(), Ok(1)), (tag_b(), delete(), Ok(2))],
        )
        .unwrap();
    assert_eq!(write.group_size, 0);
    assert_eq!(write.metadata_op, WriteOp::DeletionWithMetadata { metadata: meta });
    assert_eq!(write.metadata_op.bytes(), None);
}

#[test]
fn size_formula_over_mixed_batch() {
    let converter = WriteOpConverter::new(false, None);
    let write = converter
        .apply_group_changes(
            Ok(ExistingMetadata::Untracked),
            Ok(100),
            vec![
                change(1, 10, delete(), 20),
                change(2, 4, Effect::Modify((vec![0; 6], None)), 3),
                change(3, 5, Effect::New((vec![0; 9], None)), 1000),
            ],
        )
        .unwrap();
    // 100 - (20 + 10) - (3 + 4) + (6 + 4) + (9 + 5)
    assert_eq!(write.group_size, 87);
    assert_eq!(write.metadata_op, WriteOp::Modification(87u64.to_le_bytes().to_vec()));
    assert_eq!(write.inner_ops.len(), 3);
    assert_eq!(write.inner_ops[0], (1, (WriteOp::Deletion, None)));
    assert_eq!(write.inner_ops[1], (2, (WriteOp::Modification(vec![0; 6]), None)));
    assert_eq!(write.inner_ops[2], (3, (WriteOp::Creation(vec![0; 9]), None)));
}

#[test]
fn empty_batch_keeps_group_size() {
    let converter = WriteOpConverter::new(false, None);
    let write = converter
        .apply_group_changes(Ok(ExistingMetadata::Untracked), Ok(55), Vec::<Change>::new())
        .unwrap();
    assert_eq!(write.group_size, 55);
    assert!(write.inner_ops.is_empty());
    assert_eq!(write.metadata_op, WriteOp::Modification(55u64.to_le_bytes().to_vec()));
}

#[test]
fn slot_shape_follows_sizes() {
    let meta = SlotMetadata::new(1, 2);
    let converter = WriteOpConverter::new(false, None);
    for existing in [ExistingMetadata::Untracked, ExistingMetadata::WithMetadata(meta)] {
        let carried = match existing {
            ExistingMetadata::WithMetadata(m) => Some(m),
            _ => None,
        };
        // nonzero before, zero after: deletion
        let deleted = converter
            .apply_group_changes(Ok(existing), Ok(8), vec![change(1, 3, delete(), 5)])
            .unwrap();
        assert_eq!(deleted.metadata_op.bytes(), None);
        assert_eq!(deleted.metadata_op.metadata(), carried);
        assert!(matches!(
            deleted.metadata_op,
            WriteOp::Deletion | WriteOp::DeletionWithMetadata { .. }
        ));
        // zero before, zero after: deletion too
        let still_empty = converter
            .apply_group_changes(Ok(existing), Ok(0), Vec::<Change>::new())
            .unwrap();
        assert!(matches!(
            still_empty.metadata_op,
            WriteOp::Deletion | WriteOp::DeletionWithMetadata { .. }
        ));
        // nonzero before and after: modification
        let modified = converter
            .apply_group_changes(Ok(existing), Ok(8), vec![change(1, 3, Effect::Modify((vec![1], None)), 5)])
            .unwrap();
        assert_eq!(modified.group_size, 4);
        assert_eq!(modified.metadata_op.metadata(), carried);
        assert!(matches!(
            modified.metadata_op,
            WriteOp::Modification(_) | WriteOp::ModificationWithMetadata { .. }
        ));
        // zero before, nonzero after, on an existing slot: recreation aborts
        assert_eq!(
            converter
                .apply_group_changes(Ok(existing), Ok(0), vec![change(1, 3, Effect::New((vec![1], None)), 0)])
                .err(),
            Some(ConversionError::SpeculativeExecutionAbort)
        );
    }
    // zero before, nonzero after, on an empty slot: creation
    let created = converter
        .apply_group_changes(Ok(ExistingMetadata::NotFound), Ok(0), vec![change(1, 3, Effect::New((vec![1], None)), 0)])
        .unwrap();
    assert_eq!(created.metadata_op, WriteOp::Creation(4u64.to_le_bytes().to_vec()));
}

#[test]
fn underflow_aborts() {
    let converter = WriteOpConverter::new(false, None);
    let result = converter.apply_group_changes(
        Ok(ExistingMetadata::Untracked),
        Ok(10),
        vec![change(1, 3, Effect::Modify((vec![1], None)), 8)],
    );
    assert_eq!(result.err(), Some(ConversionError::SpeculativeExecutionAbort));
}

#[test]
fn huge_previous_size_aborts() {
    let converter = WriteOpConverter::new(false, None);
    let result = converter.apply_group_changes(
        Ok(ExistingMetadata::Untracked),
        Ok(u64::MAX),
        vec![change(1, 1, delete(), u64::MAX)],
    );
    assert_eq!(result.err(), Some(ConversionError::SpeculativeExecutionAbort));
}

#[test]
fn overflow_aborts() {
    let converter = WriteOpConverter::new(false, None);
    let result = converter.apply_group_changes(
        Ok(ExistingMetadata::Untracked),
        Ok(u64::MAX - 2),
        vec![change(1, 2, Effect::New((vec![1], None)), 0)],
    );
    assert_eq!(result.err(), Some(ConversionError::SpeculativeExecutionAbort));
}

#[test]
fn failed_group_size_lookup_is_invariant_violation() {
    let converter = WriteOpConverter::new(false, None);
    let result = converter.apply_group_changes(Ok(ExistingMetadata::Untracked), Err(()), Vec::<Change>::new());
    assert_eq!(result.err(), Some(ConversionError::UnknownInvariantViolation));
}

#[test]
fn failed_previous_size_lookup_is_invariant_violation() {
    let converter = WriteOpConverter::new(false, None);
    let result = converter.apply_group_changes(
        Ok(ExistingMetadata::Untracked),
        Ok(50),
        vec![GroupChange { tag: 1u32, tag_size: Ok(3), effect: delete(), previous_size: Err(()) }],
    );
    assert_eq!(result.err(), Some(ConversionError::UnknownInvariantViolation));
}

#[test]
fn unencodable_tag_is_serialization_error() {
    let converter = WriteOpConverter::new(false, None);
    let result = converter.apply_group_changes(
        Ok(ExistingMetadata::Untracked),
        Ok(50),
        vec![GroupChange { tag: 1u32, tag_size: Err(()), effect: delete(), previous_size: Ok(1) }],
    );
    assert_eq!(result.err(), Some(ConversionError::ValueSerialization));
}

#[test]
fn failed_group_metadata_lookup_is_storage_error() {
    let converter = WriteOpConverter::new(false, None);
    let result = converter.apply_group_changes(Err(()), Ok(5), vec![change(1, 1, Effect::Modify((vec![1], None)), 1)]);
    assert_eq!(result.err(), Some(ConversionError::StorageError));
}
