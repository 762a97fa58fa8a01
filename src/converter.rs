use vstd::prelude::*;

use crate::encoding::{encode_u128, le_bytes};
use crate::types::{
    ConversionError, Effect, EffectKind, ExistingMetadata, OpShape, SlotMetadata, WriteOp,
};

verus! {

/// What a conversion produces, before the payload is attached: the shape of
/// the operation and the metadata it carries, or the error.
pub type Outcome = Result<(OpShape, Option<SlotMetadata>), ConversionError>;

/// The shape an update of an existing slot takes.
pub open spec fn update_shape(kind: EffectKind) -> OpShape {
    match kind {
        EffectKind::Delete => OpShape::Deletion,
        _ => OpShape::Modification,
    }
}

/// The metadata rules for one slot: `template` is the metadata stamped on
/// new slots (absent while the metadata subsystem is off), `existing` what
/// the state view reports for the slot, `kind` the effect applied.
pub open spec fn slot_outcome(
    template: Option<SlotMetadata>,
    existing: ExistingMetadata,
    kind: EffectKind,
    legacy_creation_as_modification: bool,
) -> Outcome {
    match existing {
        ExistingMetadata::NotFound => match kind {
            EffectKind::New => match template {
                None => Ok(
                    (
                        if legacy_creation_as_modification {
                            OpShape::Modification
                        } else {
                            OpShape::Creation
                        },
                        None,
                    ),
                ),
                Some(m) => Ok((OpShape::Creation, Some(m))),
            },
            _ => Err(ConversionError::SpeculativeExecutionAbort),
        },
        ExistingMetadata::Untracked => match kind {
            EffectKind::New => Err(ConversionError::SpeculativeExecutionAbort),
            _ => Ok((update_shape(kind), None)),
        },
        ExistingMetadata::WithMetadata(m) => match kind {
            EffectKind::New => Err(ConversionError::SpeculativeExecutionAbort),
            _ => Ok((update_shape(kind), Some(m))),
        },
    }
}

/// As `slot_outcome`, where the metadata lookup itself may have failed.
pub open spec fn lookup_outcome(
    template: Option<SlotMetadata>,
    lookup: Result<ExistingMetadata, ()>,
    kind: EffectKind,
    legacy_creation_as_modification: bool,
) -> Outcome {
    match lookup {
        Err(_) => Err(ConversionError::StorageError),
        Ok(existing) => slot_outcome(template, existing, kind, legacy_creation_as_modification),
    }
}

/// The metadata rules for a legacy aggregator value, which never tells a
/// creation from a modification unless new slots get metadata.
pub open spec fn aggregator_outcome(
    template: Option<SlotMetadata>,
    lookup: Result<ExistingMetadata, ()>,
) -> Outcome {
    match lookup {
        Err(_) => Err(ConversionError::SpeculativeExecutionAbort),
        Ok(ExistingMetadata::NotFound) => match template {
            None => Ok((OpShape::Modification, None)),
            Some(m) => Ok((OpShape::Creation, Some(m))),
        },
        Ok(ExistingMetadata::Untracked) => Ok((OpShape::Modification, None)),
        Ok(ExistingMetadata::WithMetadata(m)) => Ok((OpShape::Modification, Some(m))),
    }
}

/// `r` is the operation that `outcome` describes, over `payload`.
pub open spec fn realizes(r: Result<WriteOp, ConversionError>, outcome: Outcome, payload: Option<Seq<u8>>) -> bool {
    match outcome {
        Ok((shape, m)) => r is Ok && r->Ok_0.has_parts(shape, payload, m),
        Err(e) => r == Err::<WriteOp, ConversionError>(e),
    }
}

/// The bytes an effect writes, absent for a deletion.
pub open spec fn effect_payload(effect: Effect<Vec<u8>>) -> Option<Seq<u8>> {
    match effect {
        Effect::New(data) => Some(data@),
        Effect::Modify(data) => Some(data@),
        Effect::Delete => None,
    }
}

/// The bytes that the resource effect writes, absent for a deletion.
pub open spec fn resource_payload<L>(effect: Effect<(Vec<u8>, Option<L>)>) -> Option<Seq<u8>> {
    match effect {
        Effect::New((data, _)) => Some(data@),
        Effect::Modify((data, _)) => Some(data@),
        Effect::Delete => None,
    }
}

/// The layout handed on with a converted resource.
pub open spec fn resource_layout<L>(effect: Effect<(Vec<u8>, Option<L>)>) -> Option<L> {
    match effect {
        Effect::New((_, layout)) => layout,
        Effect::Modify((_, layout)) => layout,
        Effect::Delete => None,
    }
}

/// The metadata that new slots get: a zero deposit stamped with the clock,
/// where the metadata subsystem is enabled and the clock is known.
pub open spec fn new_slot_template(enabled: bool, current_time_usecs: Option<u64>) -> Option<SlotMetadata> {
    if enabled && current_time_usecs is Some {
        Some(SlotMetadata { deposit: 0, creation_time_usecs: current_time_usecs->0 })
    } else {
        None
    }
}

/// Turns the abstract effects of one transaction into write operations.
pub struct WriteOpConverter {
    new_slot_metadata: Option<SlotMetadata>,
}

impl WriteOpConverter {
    /// The metadata stamped on slots that this converter creates.
    pub closed spec fn template(self) -> Option<SlotMetadata> {
        self.new_slot_metadata
    }

    /// `current_time_usecs` is the on-chain clock, absent where it is not
    /// configured. New slots get metadata with a zero deposit only where the
    /// metadata subsystem is enabled and the clock is known.
    pub fn new(is_storage_slot_metadata_enabled: bool, current_time_usecs: Option<u64>) -> (r: Self)
        ensures
            r.template() == new_slot_template(is_storage_slot_metadata_enabled, current_time_usecs),
    {
        let mut new_slot_metadata: Option<SlotMetadata> = None;
        if is_storage_slot_metadata_enabled {
            if let Some(current_time) = current_time_usecs {
                // The deposit is a placeholder, set when the storage fee is charged.
                new_slot_metadata = Some(SlotMetadata::new(0, current_time));
            }
        }
        WriteOpConverter { new_slot_metadata }
    }

    /// The metadata stamped on slots that this converter creates.
    pub fn new_slot_metadata(&self) -> (r: Option<SlotMetadata>)
        ensures
            r == self.template(),
    {
        self.new_slot_metadata
    }

    /// Applies the metadata rules to one effect.
    pub(crate) fn convert(
        &self,
        lookup: Result<ExistingMetadata, ()>,
        effect: Effect<Vec<u8>>,
        legacy_creation_as_modification: bool,
    ) -> (r: Result<WriteOp, ConversionError>)
        ensures
            realizes(
                r,
                lookup_outcome(self.template(), lookup, effect.kind(), legacy_creation_as_modification),
                effect_payload(effect),
            ),
    {
        let existing = match lookup {
            Err(_) => return Err(ConversionError::StorageError),
            Ok(existing) => existing,
        };
        match (existing, effect) {
            (ExistingMetadata::NotFound, Effect::Modify(_)) | (ExistingMetadata::NotFound, Effect::Delete) => {
                // Possible under speculative execution: the reads may be stale.
                Err(ConversionError::SpeculativeExecutionAbort)
            },
            (ExistingMetadata::Untracked, Effect::New(_)) | (ExistingMetadata::WithMetadata(_), Effect::New(_)) => {
                Err(ConversionError::SpeculativeExecutionAbort)
            },
            (ExistingMetadata::NotFound, Effect::New(data)) => match self.new_slot_metadata {
                None => {
                    if legacy_creation_as_modification {
                        Ok(WriteOp::Modification(data))
                    } else {
                        Ok(WriteOp::Creation(data))
                    }
                },
                Some(metadata) => Ok(WriteOp::CreationWithMetadata { data, metadata }),
            },
            // Existing metadata is inherited even while the subsystem is off.
            (ExistingMetadata::Untracked, Effect::Modify(data)) => Ok(WriteOp::Modification(data)),
            (ExistingMetadata::WithMetadata(metadata), Effect::Modify(data)) => {
                Ok(WriteOp::ModificationWithMetadata { data, metadata })
            },
            (ExistingMetadata::Untracked, Effect::Delete) => Ok(WriteOp::Deletion),
            (ExistingMetadata::WithMetadata(metadata), Effect::Delete) => {
                Ok(WriteOp::DeletionWithMetadata { metadata })
            },
        }
    }

    /// Converts the effect on a module slot, given the slot's metadata lookup.
    pub fn convert_module(
        &self,
        lookup: Result<ExistingMetadata, ()>,
        effect: Effect<Vec<u8>>,
        legacy_creation_as_modification: bool,
    ) -> (r: Result<WriteOp, ConversionError>)
        ensures
            realizes(
                r,
                lookup_outcome(self.template(), lookup, effect.kind(), legacy_creation_as_modification),
                effect_payload(effect),
            ),
    {
        self.convert(lookup, effect, legacy_creation_as_modification)
    }

    /// Converts the effect on an aggregator slot, given the slot's metadata
    /// lookup.
    pub fn convert_aggregator(
        &self,
        lookup: Result<ExistingMetadata, ()>,
        effect: Effect<Vec<u8>>,
        legacy_creation_as_modification: bool,
    ) -> (r: Result<WriteOp, ConversionError>)
        ensures
            realizes(
                r,
                lookup_outcome(self.template(), lookup, effect.kind(), legacy_creation_as_modification),
                effect_payload(effect),
            ),
    {
        self.convert(lookup, effect, legacy_creation_as_modification)
    }

    /// Converts the effect on a resource slot, handing on the layout of the
    /// written value.
    pub fn convert_resource<L>(
        &self,
        lookup: Result<ExistingMetadata, ()>,
        effect: Effect<(Vec<u8>, Option<L>)>,
        legacy_creation_as_modification: bool,
    ) -> (r: Result<(WriteOp, Option<L>), ConversionError>)
        ensures
            match lookup_outcome(self.template(), lookup, effect.kind(), legacy_creation_as_modification) {
                Ok((shape, m)) => {
                    &&& r is Ok
                    &&& r->Ok_0.0.has_parts(shape, resource_payload(effect), m)
                    &&& r->Ok_0.1 == resource_layout(effect)
                },
                Err(e) => r == Err::<(WriteOp, Option<L>), ConversionError>(e),
            },
    {
        let (bytes_effect, layout) = match effect {
            Effect::New((data, layout)) => (Effect::New(data), layout),
            Effect::Modify((data, layout)) => (Effect::Modify(data), layout),
            Effect::Delete => (Effect::Delete, None),
        };
        match self.convert(lookup, bytes_effect, legacy_creation_as_modification) {
            Ok(op) => Ok((op, layout)),
            Err(e) => Err(e),
        }
    }

    /// Writes a legacy aggregator value, encoded as a `u128`.
    pub fn convert_aggregator_modification(
        &self,
        lookup: Result<ExistingMetadata, ()>,
        value: u128,
    ) -> (r: Result<WriteOp, ConversionError>)
        ensures
            realizes(r, aggregator_outcome(self.template(), lookup), Some(le_bytes(value as nat, 16))),
    {
        let existing = match lookup {
            Err(_) => return Err(ConversionError::SpeculativeExecutionAbort),
            Ok(existing) => existing,
        };
        let data = encode_u128(value);
        let op = match existing {
            ExistingMetadata::NotFound => match self.new_slot_metadata {
                None => WriteOp::Modification(data),
                Some(metadata) => WriteOp::CreationWithMetadata { data, metadata },
            },
            ExistingMetadata::Untracked => WriteOp::Modification(data),
            ExistingMetadata::WithMetadata(metadata) => WriteOp::ModificationWithMetadata { data, metadata },
        };
        Ok(op)
    }
}

/// A `New` effect on a slot that holds nothing becomes a plain creation while
/// the metadata subsystem is off, a modification where the caller asks for
/// creations to be written as modifications, and, with the subsystem on and
/// the clock known, a creation that carries a zero deposit stamped with the
/// clock.
pub proof fn lemma_new_slot_conversion(enabled: bool, current_time_usecs: Option<u64>, legacy_creation_as_modification: bool)
    ensures
        !enabled && !legacy_creation_as_modification ==> slot_outcome(
            new_slot_template(enabled, current_time_usecs),
            ExistingMetadata::NotFound,
            EffectKind::New,
            legacy_creation_as_modification,
        ) == Ok::<(OpShape, Option<SlotMetadata>), ConversionError>((OpShape::Creation, None)),
        !enabled && legacy_creation_as_modification ==> slot_outcome(
            new_slot_template(enabled, current_time_usecs),
            ExistingMetadata::NotFound,
            EffectKind::New,
            legacy_creation_as_modification,
        ) == Ok::<(OpShape, Option<SlotMetadata>), ConversionError>((OpShape::Modification, None)),
        enabled && current_time_usecs is Some ==> slot_outcome(
            new_slot_template(enabled, current_time_usecs),
            ExistingMetadata::NotFound,
            EffectKind::New,
            legacy_creation_as_modification,
        ) == Ok::<(OpShape, Option<SlotMetadata>), ConversionError>(
            (OpShape::Creation, Some(SlotMetadata { deposit: 0, creation_time_usecs: current_time_usecs->0 })),
        ),
{
}

/// An update of a slot that carries metadata `m` keeps `m` unchanged: a
/// `Modify` becomes a modification with `m`, a `Delete` a deletion with `m`,
/// whether or not new slots get metadata.
pub proof fn lemma_update_inherits_metadata(template: Option<SlotMetadata>, m: SlotMetadata, legacy_creation_as_modification: bool)
    ensures
        slot_outcome(template, ExistingMetadata::WithMetadata(m), EffectKind::Modify, legacy_creation_as_modification)
            == Ok::<(OpShape, Option<SlotMetadata>), ConversionError>((OpShape::Modification, Some(m))),
        slot_outcome(template, ExistingMetadata::WithMetadata(m), EffectKind::Delete, legacy_creation_as_modification)
            == Ok::<(OpShape, Option<SlotMetadata>), ConversionError>((OpShape::Deletion, Some(m))),
{
}

/// An update of a slot that holds nothing, and a creation of a slot that
/// holds a value, are aborted as speculative.
pub proof fn lemma_contradictions_abort(
    template: Option<SlotMetadata>,
    existing: ExistingMetadata,
    kind: EffectKind,
    legacy_creation_as_modification: bool,
)
    requires
        (existing == ExistingMetadata::NotFound) != (kind == EffectKind::New),
    ensures
        slot_outcome(template, existing, kind, legacy_creation_as_modification)
            == Err::<(OpShape, Option<SlotMetadata>), ConversionError>(ConversionError::SpeculativeExecutionAbort),
{
}

} // verus!
