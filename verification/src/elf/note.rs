//! ELF notes: the registry of note kinds, the decoded note record and the
//! borrowed views through which a note is read.

use vstd::prelude::*;

verus! {

/// The kind of an ELF note.
///
/// The registry is open: a raw value without a name is kept, as it was found,
/// in `UNKNOWN`.
#[allow(non_camel_case_types)]
#[derive(Debug, Clone, Copy, PartialEq, Eq, Structural, PartialOrd, Ord, Hash)]
pub enum Type {
    GNU_ABI_TAG,
    GNU_HWCAP,
    GNU_BUILD_ID,
    GNU_GOLD_VERSION,
    GNU_PROPERTY_TYPE_0,
    GNU_BUILD_ATTRIBUTE_OPEN,
    GNU_BUILD_ATTRIBUTE_FUNC,
    CRASHPAD,
    CORE_PRSTATUS,
    CORE_FPREGSET,
    CORE_PRPSINFO,
    CORE_TASKSTRUCT,
    CORE_AUXV,
    CORE_PSTATUS,
    CORE_FPREGS,
    CORE_PSINFO,
    CORE_LWPSTATUS,
    CORE_LWPSINFO,
    CORE_WIN32PSTATUS,
    CORE_FILE,
    CORE_PRXFPREG,
    CORE_SIGINFO,
    CORE_ARM_VFP,
    CORE_ARM_TLS,
    CORE_ARM_HW_BREAK,
    CORE_ARM_HW_WATCH,
    CORE_ARM_SYSTEM_CALL,
    CORE_ARM_SVE,
    CORE_ARM_PAC_MASK,
    CORE_ARM_PACA_KEYS,
    CORE_ARM_PACG_KEYS,
    CORE_TAGGED_ADDR_CTRL,
    CORE_PAC_ENABLED_KEYS,
    CORE_X86_TLS,
    CORE_X86_IOPERM,
    CORE_X86_XSTATE,
    CORE_X86_CET,
    ANDROID_IDENT,
    ANDROID_MEMTAG,
    ANDROID_KUSER,
    GO_BUILDID,
    STAPSDT,
    UNKNOWN(u32),
}

/// The largest raw value that has a name in the registry.
pub const LAST_NAMED_VALUE: u32 = 0x2a;

impl Type {
    /// The kind that the registry gives for a raw value.
    pub open spec fn of_value(value: u32) -> Type {
        match value {
            0x01 => Type::GNU_ABI_TAG,
            0x02 => Type::GNU_HWCAP,
            0x03 => Type::GNU_BUILD_ID,
            0x04 => Type::GNU_GOLD_VERSION,
            0x05 => Type::GNU_PROPERTY_TYPE_0,
            0x06 => Type::GNU_BUILD_ATTRIBUTE_OPEN,
            0x07 => Type::GNU_BUILD_ATTRIBUTE_FUNC,
            0x08 => Type::CRASHPAD,
            0x09 => Type::CORE_PRSTATUS,
            0x0a => Type::CORE_FPREGSET,
            0x0b => Type::CORE_PRPSINFO,
            0x0c => Type::CORE_TASKSTRUCT,
            0x0d => Type::CORE_AUXV,
            0x0e => Type::CORE_PSTATUS,
            0x0f => Type::CORE_FPREGS,
            0x10 => Type::CORE_PSINFO,
            0x11 => Type::CORE_LWPSTATUS,
            0x12 => Type::CORE_LWPSINFO,
            0x13 => Type::CORE_WIN32PSTATUS,
            0x14 => Type::CORE_FILE,
            0x15 => Type::CORE_PRXFPREG,
            0x16 => Type::CORE_SIGINFO,
            0x17 => Type::CORE_ARM_VFP,
            0x18 => Type::CORE_ARM_TLS,
            0x19 => Type::CORE_ARM_HW_BREAK,
            0x1a => Type::CORE_ARM_HW_WATCH,
            0x1b => Type::CORE_ARM_SYSTEM_CALL,
            0x1c => Type::CORE_ARM_SVE,
            0x1d => Type::CORE_ARM_PAC_MASK,
            0x1e => Type::CORE_ARM_PACA_KEYS,
            0x1f => Type::CORE_ARM_PACG_KEYS,
            0x20 => Type::CORE_TAGGED_ADDR_CTRL,
            0x21 => Type::CORE_PAC_ENABLED_KEYS,
            0x22 => Type::CORE_X86_TLS,
            0x23 => Type::CORE_X86_IOPERM,
            0x24 => Type::CORE_X86_XSTATE,
            0x25 => Type::CORE_X86_CET,
            0x26 => Type::ANDROID_IDENT,
            0x27 => Type::ANDROID_MEMTAG,
            0x28 => Type::ANDROID_KUSER,
            0x29 => Type::GO_BUILDID,
            0x2a => Type::STAPSDT,
            _ => Type::UNKNOWN(value),
        }
    }

    /// The raw value that stands for this kind.
    pub open spec fn value(self) -> u32 {
        match self {
            Type::GNU_ABI_TAG => 0x01,
            Type::GNU_HWCAP => 0x02,
            Type::GNU_BUILD_ID => 0x03,
            Type::GNU_GOLD_VERSION => 0x04,
            Type::GNU_PROPERTY_TYPE_0 => 0x05,
            Type::GNU_BUILD_ATTRIBUTE_OPEN => 0x06,
            Type::GNU_BUILD_ATTRIBUTE_FUNC => 0x07,
            Type::CRASHPAD => 0x08,
            Type::CORE_PRSTATUS => 0x09,
            Type::CORE_FPREGSET => 0x0a,
            Type::CORE_PRPSINFO => 0x0b,
            Type::CORE_TASKSTRUCT => 0x0c,
            Type::CORE_AUXV => 0x0d,
            Type::CORE_PSTATUS => 0x0e,
            Type::CORE_FPREGS => 0x0f,
            Type::CORE_PSINFO => 0x10,
            Type::CORE_LWPSTATUS => 0x11,
            Type::CORE_LWPSINFO => 0x12,
            Type::CORE_WIN32PSTATUS => 0x13,
            Type::CORE_FILE => 0x14,
            Type::CORE_PRXFPREG => 0x15,
            Type::CORE_SIGINFO => 0x16,
            Type::CORE_ARM_VFP => 0x17,
            Type::CORE_ARM_TLS => 0x18,
            Type::CORE_ARM_HW_BREAK => 0x19,
            Type::CORE_ARM_HW_WATCH => 0x1a,
            Type::CORE_ARM_SYSTEM_CALL => 0x1b,
            Type::CORE_ARM_SVE => 0x1c,
            Type::CORE_ARM_PAC_MASK => 0x1d,
            Type::CORE_ARM_PACA_KEYS => 0x1e,
            Type::CORE_ARM_PACG_KEYS => 0x1f,
            Type::CORE_TAGGED_ADDR_CTRL => 0x20,
            Type::CORE_PAC_ENABLED_KEYS => 0x21,
            Type::CORE_X86_TLS => 0x22,
            Type::CORE_X86_IOPERM => 0x23,
            Type::CORE_X86_XSTATE => 0x24,
            Type::CORE_X86_CET => 0x25,
            Type::ANDROID_IDENT => 0x26,
            Type::ANDROID_MEMTAG => 0x27,
            Type::ANDROID_KUSER => 0x28,
            Type::GO_BUILDID => 0x29,
            Type::STAPSDT => 0x2a,
            Type::UNKNOWN(raw) => raw,
        }
    }

    /// Whether the registry has a name for `value`.
    pub open spec fn is_named_value(value: u32) -> bool {
        1 <= value <= LAST_NAMED_VALUE
    }

    /// A kind is canonical when it is the one that the registry gives for its
    /// raw value: a canonical `UNKNOWN` never carries a value that has a name.
    pub open spec fn is_canonical(self) -> bool {
        self matches Type::UNKNOWN(raw) ==> !Type::is_named_value(raw)
    }

    /// Looks `value` up in the registry. A value without a name comes back as
    /// `UNKNOWN(value)`; no value is rejected.
    pub fn from_value(value: u32) -> (kind: Type)
        ensures
            kind == Type::of_value(value),
    {
        match value {
            0x00000001 => Type::GNU_ABI_TAG,
            0x00000002 => Type::GNU_HWCAP,
            0x00000003 => Type::GNU_BUILD_ID,
            0x00000004 => Type::GNU_GOLD_VERSION,
            0x00000005 => Type::GNU_PROPERTY_TYPE_0,
            0x00000006 => Type::GNU_BUILD_ATTRIBUTE_OPEN,
            0x00000007 => Type::GNU_BUILD_ATTRIBUTE_FUNC,
            0x00000008 => Type::CRASHPAD,
            0x00000009 => Type::CORE_PRSTATUS,
            0x0000000a => Type::CORE_FPREGSET,
            0x0000000b => Type::CORE_PRPSINFO,
            0x0000000c => Type::CORE_TASKSTRUCT,
            0x0000000d => Type::CORE_AUXV,
            0x0000000e => Type::CORE_PSTATUS,
            0x0000000f => Type::CORE_FPREGS,
            0x00000010 => Type::CORE_PSINFO,
            0x00000011 => Type::CORE_LWPSTATUS,
            0x00000012 => Type::CORE_LWPSINFO,
            0x00000013 => Type::CORE_WIN32PSTATUS,
            0x00000014 => Type::CORE_FILE,
            0x00000015 => Type::CORE_PRXFPREG,
            0x00000016 => Type::CORE_SIGINFO,
            0x00000017 => Type::CORE_ARM_VFP,
            0x00000018 => Type::CORE_ARM_TLS,
            0x00000019 => Type::CORE_ARM_HW_BREAK,
            0x0000001a => Type::CORE_ARM_HW_WATCH,
            0x0000001b => Type::CORE_ARM_SYSTEM_CALL,
            0x0000001c => Type::CORE_ARM_SVE,
            0x0000001d => Type::CORE_ARM_PAC_MASK,
            0x0000001e => Type::CORE_ARM_PACA_KEYS,
            0x0000001f => Type::CORE_ARM_PACG_KEYS,
            0x00000020 => Type::CORE_TAGGED_ADDR_CTRL,
            0x00000021 => Type::CORE_PAC_ENABLED_KEYS,
            0x00000022 => Type::CORE_X86_TLS,
            0x00000023 => Type::CORE_X86_IOPERM,
            0x00000024 => Type::CORE_X86_XSTATE,
            0x00000025 => Type::CORE_X86_CET,
            0x00000026 => Type::ANDROID_IDENT,
            0x00000027 => Type::ANDROID_MEMTAG,
            0x00000028 => Type::ANDROID_KUSER,
            0x00000029 => Type::GO_BUILDID,
            0x0000002a => Type::STAPSDT,
            _ => Type::UNKNOWN(value),
        }
    }

    /// The raw value of this kind. For `UNKNOWN` it is the value carried.
    pub fn to_value(&self) -> (raw: u32)
        ensures
            raw == self.value(),
    {
        match self {
            Type::GNU_ABI_TAG => 0x00000001,
            Type::GNU_HWCAP => 0x00000002,
            Type::GNU_BUILD_ID => 0x00000003,
            Type::GNU_GOLD_VERSION => 0x00000004,
            Type::GNU_PROPERTY_TYPE_0 => 0x00000005,
            Type::GNU_BUILD_ATTRIBUTE_OPEN => 0x00000006,
            Type::GNU_BUILD_ATTRIBUTE_FUNC => 0x00000007,
            Type::CRASHPAD => 0x00000008,
            Type::CORE_PRSTATUS => 0x00000009,
            Type::CORE_FPREGSET => 0x0000000a,
            Type::CORE_PRPSINFO => 0x0000000b,
            Type::CORE_TASKSTRUCT => 0x0000000c,
            Type::CORE_AUXV => 0x0000000d,
            Type::CORE_PSTATUS => 0x0000000e,
            Type::CORE_FPREGS => 0x0000000f,
            Type::CORE_PSINFO => 0x00000010,
            Type::CORE_LWPSTATUS => 0x00000011,
            Type::CORE_LWPSINFO => 0x00000012,
            Type::CORE_WIN32PSTATUS => 0x00000013,
            Type::CORE_FILE => 0x00000014,
            Type::CORE_PRXFPREG => 0x00000015,
            Type::CORE_SIGINFO => 0x00000016,
            Type::CORE_ARM_VFP => 0x00000017,
            Type::CORE_ARM_TLS => 0x00000018,
            Type::CORE_ARM_HW_BREAK => 0x00000019,
            Type::CORE_ARM_HW_WATCH => 0x0000001a,
            Type::CORE_ARM_SYSTEM_CALL => 0x0000001b,
            Type::CORE_ARM_SVE => 0x0000001c,
            Type::CORE_ARM_PAC_MASK => 0x0000001d,
            Type::CORE_ARM_PACA_KEYS => 0x0000001e,
            Type::CORE_ARM_PACG_KEYS => 0x0000001f,
            Type::CORE_TAGGED_ADDR_CTRL => 0x00000020,
            Type::CORE_PAC_ENABLED_KEYS => 0x00000021,
            Type::CORE_X86_TLS => 0x00000022,
            Type::CORE_X86_IOPERM => 0x00000023,
            Type::CORE_X86_XSTATE => 0x00000024,
            Type::CORE_X86_CET => 0x00000025,
            Type::ANDROID_IDENT => 0x00000026,
            Type::ANDROID_MEMTAG => 0x00000027,
            Type::ANDROID_KUSER => 0x00000028,
            Type::GO_BUILDID => 0x00000029,
            Type::STAPSDT => 0x0000002a,
            Type::UNKNOWN(raw) => *raw,
        }
    }

    /// Every raw value survives the registry: the kind found for a value has
    /// that value as its raw value, whether the value has a name or not.
    pub proof fn lemma_value_round_trip(value: u32)
        ensures
            Type::of_value(value).value() == value,
            Type::of_value(value).is_canonical(),
            Type::of_value(value) is UNKNOWN <==> !Type::is_named_value(value),
    {
    }

    /// A canonical kind is found again from its raw value. `UNKNOWN` with a
    /// value that has a name is the one kind that is not: the registry gives
    /// the name for that value.
    pub proof fn lemma_kind_round_trip(kind: Type)
        ensures
            kind.is_canonical() <==> Type::of_value(kind.value()) == kind,
    {
    }
}

/// A decoded ELF note, as the binary that owns it keeps it.
///
/// The record is read through the borrowed views below, and nothing can
/// change it for as long as one of them exists.
#[derive(Debug)]
pub struct Note {
    /// The owner of the note, for instance `GNU`.
    pub name: String,
    /// The value that the registry of note kinds is looked up with.
    pub note_type: u32,
    /// The type field as it stands in the binary.
    pub original_type: u32,
    /// The declared size of the whole note, in bytes.
    pub size: u64,
    /// The payload that follows the name.
    pub description: Vec<u8>,
}

/// What every flavour of note can be asked.
///
/// A flavour says where its record is; the accessors are the same for all of
/// them and only read the record.
pub trait NoteBase {
    /// The record that this view reads.
    spec fn note(&self) -> Note;

    /// The record itself. The accessors below are written over it.
    fn get_base(&self) -> (base: &Note)
        ensures
            *base == self.note(),
    ;

    /// The name of the note's owner.
    fn name(&self) -> (name: String)
        ensures
            name@ == self.note().name@,
    {
        self.get_base().name.clone()
    }

    /// The kind of the note, as the registry names it.
    fn get_type(&self) -> (kind: Type)
        ensures
            kind == Type::of_value(self.note().note_type),
    {
        Type::from_value(self.get_base().note_type)
    }

    /// The type field as it stands in the binary, whether or not the
    /// registry has a name for the note.
    fn original_type(&self) -> (raw: u32)
        ensures
            raw == self.note().original_type,
    {
        self.get_base().original_type
    }

    /// The declared size of the note, in bytes.
    fn size(&self) -> (size: u64)
        ensures
            size == self.note().size,
    {
        self.get_base().size
    }

    /// The payload of the note, borrowed from the record.
    fn description(&self) -> (bytes: &[u8])
        ensures
            bytes@ == self.note().description@,
    {
        self.get_base().description.as_slice()
    }
}

/// A note without a structure of its own beyond the common fields.
///
/// The view borrows the record from its owner and cannot outlive it.
#[derive(Debug, Clone, Copy)]
pub struct Generic<'a> {
    base: &'a Note,
}

impl<'a> Generic<'a> {
    /// The view of `note` as a generic note.
    pub fn new(note: &'a Note) -> (view: Generic<'a>)
        ensures
            view.note() == *note,
    {
        Generic { base: note }
    }
}

impl NoteBase for Generic<'_> {
    closed spec fn note(&self) -> Note {
        *self.base
    }

    fn get_base(&self) -> (base: &Note) {
        self.base
    }
}

/// The flavours of note. Every note is exactly one of them.
#[derive(Debug, Clone, Copy)]
pub enum Notes<'a> {
    Generic(Generic<'a>),
}

impl<'a> Notes<'a> {
    /// The record that this note reads, whichever flavour it is.
    pub open spec fn note(self) -> Note {
        match self {
            Notes::Generic(generic) => generic.note(),
        }
    }

    /// The flavour of `note`: no note is left without one.
    pub fn from_note(note: &'a Note) -> (flavour: Notes<'a>)
        ensures
            flavour is Generic,
            flavour.note() == *note,
    {
        Notes::Generic(Generic::new(note))
    }

    /// The notes of a binary, one view for each record of `notes`, in their
    /// order.
    pub fn from_notes(notes: &'a [Note]) -> (flavours: Vec<Notes<'a>>)
        ensures
            flavours@.len() == notes@.len(),
            forall|i: int|
                0 <= i < notes@.len() ==> (#[trigger] flavours@[i]).note() == notes@[i],
    {
        let mut flavours: Vec<Notes<'a>> = Vec::new();
        let mut i: usize = 0;
        while i < notes.len()
            invariant
                i <= notes@.len(),
                flavours@.len() == i,
                forall|j: int| 0 <= j < i ==> (#[trigger] flavours@[j]).note() == notes@[j],
            decreases notes.len() - i,
        {
            flavours.push(Notes::from_note(&notes[i]));
            i += 1;
        }
        flavours
    }
}

} // verus!
