//! PE load configurations.
//!
//! The load configuration grew by trailing fields from one revision of the
//! format to the next. A record is therefore a run of field groups, one for
//! each revision from `V0` up to the revision the record was decoded at, and
//! it can be read through the capability of that revision or of any lower
//! one, and through no other: a field is readable only where it is present.

use vstd::prelude::*;

verus! {

/// A revision of the load configuration, lowest first.
#[derive(Debug, Clone, Copy, PartialEq, Eq, Structural, PartialOrd, Ord, Hash)]
pub enum Version {
    V0,
    V1,
    V2,
    V3,
    V4,
    V5,
    V6,
    V7,
    V8,
    V9,
    V10,
    V11,
}

/// The number of revisions.
pub const REVISIONS: usize = 12;

impl Version {
    /// The place of the revision in the family: 0 for `V0`, 11 for `V11`.
    pub open spec fn index(self) -> int {
        match self {
            Version::V0 => 0,
            Version::V1 => 1,
            Version::V2 => 2,
            Version::V3 => 3,
            Version::V4 => 4,
            Version::V5 => 5,
            Version::V6 => 6,
            Version::V7 => 7,
            Version::V8 => 8,
            Version::V9 => 9,
            Version::V10 => 10,
            Version::V11 => 11,
        }
    }

    /// The place of the revision in the family, as a number.
    pub fn level(&self) -> (level: usize)
        ensures
            level == self.index(),
            level < REVISIONS,
    {
        match self {
            Version::V0 => 0,
            Version::V1 => 1,
            Version::V2 => 2,
            Version::V3 => 3,
            Version::V4 => 4,
            Version::V5 => 5,
            Version::V6 => 6,
            Version::V7 => 7,
            Version::V8 => 8,
            Version::V9 => 9,
            Version::V10 => 10,
            Version::V11 => 11,
        }
    }

    /// The revision at place `level`, if the family has one there.
    pub fn from_level(level: usize) -> (version: Option<Version>)
        ensures
            version is Some <==> level < REVISIONS,
            version matches Some(v) ==> v.index() == level,
    {
        match level {
            0 => Some(Version::V0),
            1 => Some(Version::V1),
            2 => Some(Version::V2),
            3 => Some(Version::V3),
            4 => Some(Version::V4),
            5 => Some(Version::V5),
            6 => Some(Version::V6),
            7 => Some(Version::V7),
            8 => Some(Version::V8),
            9 => Some(Version::V9),
            10 => Some(Version::V10),
            11 => Some(Version::V11),
            _ => None,
        }
    }
}

/// The code integrity descriptor that revision `V2` added.
#[derive(Debug, Clone, Copy, PartialEq, Eq, Structural, Default)]
pub struct CodeIntegrity {
    pub flags: u16,
    pub catalog: u16,
    pub catalog_offset: u32,
    pub reserved: u32,
}

/// The fields of revision `V0`, which every load configuration has: the common
/// header and the table of structured exception handlers.
#[derive(Debug, Clone, Copy, PartialEq, Eq, Structural, Default)]
pub struct LoadConfigV0 {
    /// The declared size of the whole record, in bytes.
    pub characteristics: u32,
    /// When the record was made.
    pub timedatestamp: u32,
    pub major_version: u16,
    pub minor_version: u16,
    pub global_flags_clear: u32,
    pub global_flags_set: u32,
    pub critical_section_default_timeout: u32,
    pub decommit_free_block_threshold: u64,
    pub decommit_total_free_threshold: u64,
    pub lock_prefix_table: u64,
    pub maximum_allocation_size: u64,
    pub virtual_memory_threshold: u64,
    pub process_affinity_mask: u64,
    pub process_heap_flags: u32,
    pub csd_version: u16,
    pub dependent_load_flags: u16,
    pub editlist: u64,
    pub security_cookie: u64,
    pub se_handler_table: u64,
    pub se_handler_count: u64,
}

/// The fields that revision `V1` added: the control flow guard tables.
#[derive(Debug, Clone, Copy, PartialEq, Eq, Structural, Default)]
pub struct LoadConfigV1 {
    pub guard_cf_check_function_pointer: u64,
    pub guard_cf_dispatch_function_pointer: u64,
    pub guard_cf_function_table: u64,
    pub guard_cf_function_count: u64,
    pub guard_flags: u32,
}

/// The field that revision `V2` added: the code integrity descriptor.
#[derive(Debug, Clone, Copy, PartialEq, Eq, Structural, Default)]
pub struct LoadConfigV2 {
    pub code_integrity: CodeIntegrity,
}

/// The fields that revision `V3` added: the tables of address-taken import
/// entries and of long jump targets.
#[derive(Debug, Clone, Copy, PartialEq, Eq, Structural, Default)]
pub struct LoadConfigV3 {
    pub guard_address_taken_iat_entry_table: u64,
    pub guard_address_taken_iat_entry_count: u64,
    pub guard_long_jump_target_table: u64,
    pub guard_long_jump_target_count: u64,
}

/// The fields that revision `V4` added: the dynamic relocations and the hybrid
/// metadata.
#[derive(Debug, Clone, Copy, PartialEq, Eq, Structural, Default)]
pub struct LoadConfigV4 {
    pub dynamic_value_reloc_table: u64,
    pub hybrid_metadata_pointer: u64,
}

/// The fields that revision `V5` added: the return flow guard routines.
#[derive(Debug, Clone, Copy, PartialEq, Eq, Structural, Default)]
pub struct LoadConfigV5 {
    pub guard_rf_failure_routine: u64,
    pub guard_rf_failure_routine_function_pointer: u64,
    pub dynamic_value_reloctable_offset: u32,
    pub dynamic_value_reloctable_section: u16,
    pub reserved2: u16,
}

/// The fields that revision `V6` added: the stack pointer verifier and the hot
/// patch table.
#[derive(Debug, Clone, Copy, PartialEq, Eq, Structural, Default)]
pub struct LoadConfigV6 {
    pub guard_rf_verify_stackpointer_function_pointer: u64,
    pub hotpatch_table_offset: u32,
}

/// The fields that revision `V7` added: the address of the unicode string.
#[derive(Debug, Clone, Copy, PartialEq, Eq, Structural, Default)]
pub struct LoadConfigV7 {
    pub reserved3: u32,
    pub addressof_unicode_string: u64,
}

/// The field that revision `V8` added: the volatile metadata.
#[derive(Debug, Clone, Copy, PartialEq, Eq, Structural, Default)]
pub struct LoadConfigV8 {
    pub volatile_metadata_pointer: u64,
}

/// The fields that revision `V9` added: the table of exception handling
/// continuations.
#[derive(Debug, Clone, Copy, PartialEq, Eq, Structural, Default)]
pub struct LoadConfigV9 {
    pub guard_eh_continuation_table: u64,
    pub guard_eh_continuation_count: u64,
}

/// The fields that revision `V10` added: the extended flow guard pointers.
#[derive(Debug, Clone, Copy, PartialEq, Eq, Structural, Default)]
pub struct LoadConfigV10 {
    pub guard_xfg_check_function_pointer: u64,
    pub guard_xfg_dispatch_function_pointer: u64,
    pub guard_xfg_table_dispatch_function_pointer: u64,
}

/// The field that revision `V11` added: the failure mode of cast guard.
#[derive(Debug, Clone, Copy, PartialEq, Eq, Structural, Default)]
pub struct LoadConfigV11 {
    pub cast_guard_os_determined_failure_mode: u64,
}

/// The fields that one revision added to the load configuration.
#[derive(Debug, Clone, Copy, PartialEq, Eq, Structural)]
pub enum Fields {
    V0(LoadConfigV0),
    V1(LoadConfigV1),
    V2(LoadConfigV2),
    V3(LoadConfigV3),
    V4(LoadConfigV4),
    V5(LoadConfigV5),
    V6(LoadConfigV6),
    V7(LoadConfigV7),
    V8(LoadConfigV8),
    V9(LoadConfigV9),
    V10(LoadConfigV10),
    V11(LoadConfigV11),
}

impl Fields {
    /// The revision that added these fields.
    pub open spec fn revision(self) -> Version {
        match self {
            Fields::V0(_) => Version::V0,
            Fields::V1(_) => Version::V1,
            Fields::V2(_) => Version::V2,
            Fields::V3(_) => Version::V3,
            Fields::V4(_) => Version::V4,
            Fields::V5(_) => Version::V5,
            Fields::V6(_) => Version::V6,
            Fields::V7(_) => Version::V7,
            Fields::V8(_) => Version::V8,
            Fields::V9(_) => Version::V9,
            Fields::V10(_) => Version::V10,
            Fields::V11(_) => Version::V11,
        }
    }

    /// The revision that added these fields.
    pub fn version(&self) -> (version: Version)
        ensures
            version == self.revision(),
    {
        match self {
            Fields::V0(_) => Version::V0,
            Fields::V1(_) => Version::V1,
            Fields::V2(_) => Version::V2,
            Fields::V3(_) => Version::V3,
            Fields::V4(_) => Version::V4,
            Fields::V5(_) => Version::V5,
            Fields::V6(_) => Version::V6,
            Fields::V7(_) => Version::V7,
            Fields::V8(_) => Version::V8,
            Fields::V9(_) => Version::V9,
            Fields::V10(_) => Version::V10,
            Fields::V11(_) => Version::V11,
        }
    }
}

/// Whether `groups` is a run of field groups as a record holds it: one group
/// for each revision from `V0` upwards, in order and without a gap.
pub open spec fn in_order(groups: Seq<Fields>) -> bool {
    &&& 1 <= groups.len() <= REVISIONS
    &&& forall|i: int| 0 <= i < groups.len() ==> (#[trigger] groups[i]).revision().index() == i
}

/// The groups of `groups` that the capability of `level` shows: those up to
/// `level`, where `groups` reaches that far, and nothing where it does not.
pub open spec fn capability_of(groups: Seq<Fields>, level: Version) -> Option<Seq<Fields>> {
    if level.index() < groups.len() {
        Some(groups.take(level.index() + 1))
    } else {
        None
    }
}

/// The fields that `revision` added, where `groups` reaches that far.
pub open spec fn fields_of(groups: Seq<Fields>, revision: Version) -> Option<Fields> {
    if revision.index() < groups.len() {
        Some(groups[revision.index()])
    } else {
        None
    }
}

/// A decoded load configuration.
///
/// Its view is the run of its field groups. The revision it was decoded at
/// is that of the last group, and is fixed for as long as the record lives.
#[derive(Debug)]
pub struct LoadConfiguration {
    groups: Vec<Fields>,
}

impl View for LoadConfiguration {
    type V = Seq<Fields>;

    closed spec fn view(&self) -> Seq<Fields> {
        self.groups@
    }
}

/// A capability: a load configuration seen at one revision.
///
/// The view borrows from the record. It shows the fields of its revision
/// and of every revision below it, and nothing of what the record may hold
/// above: its view is that run of field groups.
#[derive(Debug, Clone, Copy)]
pub struct CapabilityView<'a> {
    record: &'a LoadConfiguration,
    level: Version,
}

impl<'a> View for CapabilityView<'a> {
    type V = Seq<Fields>;

    closed spec fn view(&self) -> Seq<Fields> {
        self.record@.take(self.level.index() + 1)
    }
}

impl LoadConfiguration {
    /// Every record holds its groups in order.
    #[verifier::type_invariant]
    pub closed spec fn well_formed(&self) -> bool {
        in_order(self.groups@)
    }

    /// The revision that the record was decoded at.
    pub open spec fn version(&self) -> Version {
        self@.last().revision()
    }

    /// A record of revision `V0`.
    pub fn new(base: LoadConfigV0) -> (record: LoadConfiguration)
        ensures
            record@ == seq![Fields::V0(base)],
            record.well_formed(),
    {
        let mut groups = Vec::new();
        groups.push(Fields::V0(base));
        LoadConfiguration { groups }
    }

    /// The record one revision up, with `fields` as what that revision
    /// added. Fields of any other revision do not fit: the record then comes
    /// back as it was, in `Err`.
    pub fn extended(self, fields: Fields) -> (outcome: Result<LoadConfiguration, LoadConfiguration>)
        ensures
            outcome is Ok <==> fields.revision().index() == self@.len(),
            match outcome {
                Ok(record) => record@ == self@.push(fields) && record.well_formed(),
                Err(record) => record@ == self@,
            },
    {
        proof {
            use_type_invariant(&self);
        }
        if fields.version().level() == self.groups.len() {
            let mut groups = self.groups;
            groups.push(fields);
            Ok(LoadConfiguration { groups })
        } else {
            Err(self)
        }
    }

    /// The record that holds `groups`, if they are in order: one group for
    /// each revision from `V0` upwards, without a gap.
    pub fn from_groups(groups: Vec<Fields>) -> (record: Option<LoadConfiguration>)
        ensures
            record is Some <==> in_order(groups@),
            record matches Some(r) ==> r@ == groups@ && r.well_formed(),
    {
        if groups.len() == 0 || groups.len() > REVISIONS {
            return None;
        }
        let mut i: usize = 0;
        while i < groups.len()
            invariant
                i <= groups.len(),
                forall|j: int| 0 <= j < i ==> (#[trigger] groups@[j]).revision().index() == j,
            decreases groups.len() - i,
        {
            if groups[i].version().level() != i {
                return None;
            }
            i += 1;
        }
        Some(LoadConfiguration { groups })
    }

    /// The revision that the record was decoded at.
    pub fn actual_version(&self) -> (version: Version)
        ensures
            version == self.version(),
            version.index() + 1 == self@.len(),
    {
        proof {
            use_type_invariant(self);
        }
        self.groups[self.groups.len() - 1].version()
    }

    /// Asks for the record at `level`. A record decoded at an earlier
    /// revision does not hold the fields of `level`: the answer is then
    /// `None`, which is an ordinary outcome and no error.
    pub fn as_capability(&self, level: Version) -> (view: Option<CapabilityView<'_>>)
        ensures
            view is Some <==> level.index() <= self.version().index(),
            match view {
                Some(v) => capability_of(self@, level) == Some(v@) && v.level() == level,
                None => capability_of(self@, level) is None,
            },
    {
        proof {
            use_type_invariant(self);
        }
        if level.level() < self.groups.len() {
            Some(CapabilityView { record: self, level })
        } else {
            None
        }
    }

    /// The capability of the record's own revision: all that it holds.
    pub fn full_view(&self) -> (view: CapabilityView<'_>)
        ensures
            view@ == self@,
            view.level() == self.version(),
    {
        let level = self.actual_version();
        proof {
            use_type_invariant(self);
        }
        CapabilityView { record: self, level }
    }

    /// A capability is present exactly up to the revision that the record
    /// was decoded at. One that is present is itself in order and shows the
    /// revision that was asked for.
    pub proof fn lemma_capability_present(record: LoadConfiguration, level: Version)
        requires
            record.well_formed(),
        ensures
            capability_of(record@, level) is Some <==> level.index() <= record.version().index(),
            capability_of(record@, level) matches Some(shown) ==> in_order(shown)
                && shown.last().revision() == level,
    {
    }

    /// Widening agrees with asking directly. For revisions `low` and `high`
    /// that are both present, with `low` at or below `high`, the capability
    /// of `high` seen at `low` is the capability of `low`; and every group
    /// that `low` shows is present and the same, whether it is read from the
    /// record, through `low` or through `high`.
    pub proof fn lemma_widening_agrees(record: LoadConfiguration, low: Version, high: Version)
        requires
            record.well_formed(),
            low.index() <= high.index() <= record.version().index(),
        ensures
            capability_of(record@, high) is Some,
            capability_of(capability_of(record@, high).unwrap(), low) == capability_of(
                record@,
                low,
            ),
            forall|revision: Version|
                revision.index() <= low.index() ==> {
                    &&& #[trigger] fields_of(record@, revision) is Some
                    &&& fields_of(capability_of(record@, low).unwrap(), revision) == fields_of(
                        record@,
                        revision,
                    )
                    &&& fields_of(capability_of(record@, high).unwrap(), revision) == fields_of(
                        record@,
                        revision,
                    )
                },
    {
        let shown_high = capability_of(record@, high).unwrap();
        assert(shown_high.take(low.index() + 1) =~= record@.take(low.index() + 1));
    }
}

impl<'a> CapabilityView<'a> {
    /// Every capability shows a revision that its record holds.
    #[verifier::type_invariant]
    pub closed spec fn well_formed(&self) -> bool {
        &&& self.record.well_formed()
        &&& self.level.index() < self.record@.len()
    }

    /// The revision that this capability shows.
    pub open spec fn level(&self) -> Version {
        self@.last().revision()
    }

    /// The revision that this capability shows.
    pub fn version(&self) -> (version: Version)
        ensures
            version == self.level(),
            version.index() + 1 == self@.len(),
            in_order(self@),
    {
        proof {
            use_type_invariant(self);
        }
        self.level
    }

    /// Sees the same record at `level`. This succeeds for every revision up
    /// to the one that this capability shows; a higher one is not shown and
    /// gives `None`.
    pub fn widen(&self, level: Version) -> (view: Option<CapabilityView<'a>>)
        ensures
            view is Some <==> level.index() <= self.level().index(),
            match view {
                Some(v) => capability_of(self@, level) == Some(v@) && v.level() == level,
                None => capability_of(self@, level) is None,
            },
    {
        proof {
            use_type_invariant(self);
        }
        if level.level() <= self.level.level() {
            let view = CapabilityView { record: self.record, level };
            assert(view@ =~= self@.take(level.index() + 1));
            Some(view)
        } else {
            None
        }
    }

    /// The fields that `revision` added, where this capability shows them:
    /// those of every revision up to its own, and of no other.
    pub fn fields(&self, revision: Version) -> (group: Option<&'a Fields>)
        ensures
            group is Some <==> revision.index() <= self.level().index(),
            match group {
                Some(fields) => fields_of(self@, revision) == Some(*fields) && fields.revision()
                    == revision,
                None => fields_of(self@, revision) is None,
            },
    {
        proof {
            use_type_invariant(self);
        }
        let index = revision.level();
        if index <= self.level.level() {
            Some(&self.record.groups[index])
        } else {
            None
        }
    }

    /// The fields of revision `V0`, which every capability shows.
    pub fn v0(&self) -> (fields: &'a LoadConfigV0)
        ensures
            fields_of(self@, Version::V0) == Some(Fields::V0(*fields)),
    {
        match self.fields(Version::V0) {
            Some(Fields::V0(fields)) => fields,
            _ => unreached(),
        }
    }

    /// The fields that revision `V1` added, where this capability shows them.
    pub fn v1(&self) -> (fields: Option<&'a LoadConfigV1>)
        ensures
            fields is Some <==> 1 <= self.level().index(),
            match fields {
                Some(fields) => fields_of(self@, Version::V1) == Some(Fields::V1(*fields)),
                None => fields_of(self@, Version::V1) is None,
            },
    {
        match self.fields(Version::V1) {
            Some(Fields::V1(fields)) => Some(fields),
            _ => None,
        }
    }

    /// The fields that revision `V2` added, where this capability shows them.
    pub fn v2(&self) -> (fields: Option<&'a LoadConfigV2>)
        ensures
            fields is Some <==> 2 <= self.level().index(),
            match fields {
                Some(fields) => fields_of(self@, Version::V2) == Some(Fields::V2(*fields)),
                None => fields_of(self@, Version::V2) is None,
            },
    {
        match self.fields(Version::V2) {
            Some(Fields::V2(fields)) => Some(fields),
            _ => None,
        }
    }

    /// The fields that revision `V3` added, where this capability shows them.
    pub fn v3(&self) -> (fields: Option<&'a LoadConfigV3>)
        ensures
            fields is Some <==> 3 <= self.level().index(),
            match fields {
                Some(fields) => fields_of(self@, Version::V3) == Some(Fields::V3(*fields)),
                None => fields_of(self@, Version::V3) is None,
            },
    {
        match self.fields(Version::V3) {
            Some(Fields::V3(fields)) => Some(fields),
            _ => None,
        }
    }

    /// The fields that revision `V4` added, where this capability shows them.
    pub fn v4(&self) -> (fields: Option<&'a LoadConfigV4>)
        ensures
            fields is Some <==> 4 <= self.level().index(),
            match fields {
                Some(fields) => fields_of(self@, Version::V4) == Some(Fields::V4(*fields)),
                None => fields_of(self@, Version::V4) is None,
            },
    {
        match self.fields(Version::V4) {
            Some(Fields::V4(fields)) => Some(fields),
            _ => None,
        }
    }

    /// The fields that revision `V5` added, where this capability shows them.
    pub fn v5(&self) -> (fields: Option<&'a LoadConfigV5>)
        ensures
            fields is Some <==> 5 <= self.level().index(),
            match fields {
                Some(fields) => fields_of(self@, Version::V5) == Some(Fields::V5(*fields)),
                None => fields_of(self@, Version::V5) is None,
            },
    {
        match self.fields(Version::V5) {
            Some(Fields::V5(fields)) => Some(fields),
            _ => None,
        }
    }

    /// The fields that revision `V6` added, where this capability shows them.
    pub fn v6(&self) -> (fields: Option<&'a LoadConfigV6>)
        ensures
            fields is Some <==> 6 <= self.level().index(),
            match fields {
                Some(fields) => fields_of(self@, Version::V6) == Some(Fields::V6(*fields)),
                None => fields_of(self@, Version::V6) is None,
            },
    {
        match self.fields(Version::V6) {
            Some(Fields::V6(fields)) => Some(fields),
            _ => None,
        }
    }

    /// The fields that revision `V7` added, where this capability shows them.
    pub fn v7(&self) -> (fields: Option<&'a LoadConfigV7>)
        ensures
            fields is Some <==> 7 <= self.level().index(),
            match fields {
                Some(fields) => fields_of(self@, Version::V7) == Some(Fields::V7(*fields)),
                None => fields_of(self@, Version::V7) is None,
            },
    {
        match self.fields(Version::V7) {
            Some(Fields::V7(fields)) => Some(fields),
            _ => None,
        }
    }

    /// The fields that revision `V8` added, where this capability shows them.
    pub fn v8(&self) -> (fields: Option<&'a LoadConfigV8>)
        ensures
            fields is Some <==> 8 <= self.level().index(),
            match fields {
                Some(fields) => fields_of(self@, Version::V8) == Some(Fields::V8(*fields)),
                None => fields_of(self@, Version::V8) is None,
            },
    {
        match self.fields(Version::V8) {
            Some(Fields::V8(fields)) => Some(fields),
            _ => None,
        }
    }

    /// The fields that revision `V9` added, where this capability shows them.
    pub fn v9(&self) -> (fields: Option<&'a LoadConfigV9>)
        ensures
            fields is Some <==> 9 <= self.level().index(),
            match fields {
                Some(fields) => fields_of(self@, Version::V9) == Some(Fields::V9(*fields)),
                None => fields_of(self@, Version::V9) is None,
            },
    {
        match self.fields(Version::V9) {
            Some(Fields::V9(fields)) => Some(fields),
            _ => None,
        }
    }

    /// The fields that revision `V10` added, where this capability shows them.
    pub fn v10(&self) -> (fields: Option<&'a LoadConfigV10>)
        ensures
            fields is Some <==> 10 <= self.level().index(),
            match fields {
                Some(fields) => fields_of(self@, Version::V10) == Some(Fields::V10(*fields)),
                None => fields_of(self@, Version::V10) is None,
            },
    {
        match self.fields(Version::V10) {
            Some(Fields::V10(fields)) => Some(fields),
            _ => None,
        }
    }

    /// The fields that revision `V11` added, where this capability shows them.
    pub fn v11(&self) -> (fields: Option<&'a LoadConfigV11>)
        ensures
            fields is Some <==> 11 <= self.level().index(),
            match fields {
                Some(fields) => fields_of(self@, Version::V11) == Some(Fields::V11(*fields)),
                None => fields_of(self@, Version::V11) is None,
            },
    {
        match self.fields(Version::V11) {
            Some(Fields::V11(fields)) => Some(fields),
            _ => None,
        }
    }
}

} // verus!
