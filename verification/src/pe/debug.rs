//! PE debug entries: the registry of their kinds, the decoded entry and
//! the flavours through which an entry is read.

use vstd::prelude::*;

verus! {

/// The kind of a debug entry.
///
/// The registry is open: a raw value without a name is kept, as it was found,
/// in `UNKNOWN`.
#[allow(non_camel_case_types)]
#[derive(Debug, Clone, Copy, PartialEq, Eq, Structural, PartialOrd, Ord, Hash)]
pub enum Type {
    COFF,
    CODEVIEW,
    FPO,
    MISC,
    EXCEPTION,
    FIXUP,
    OMAP_TO_SRC,
    OMAP_FROM_SRC,
    BORLAND,
    RESERVED10,
    CLSID,
    VC_FEATURE,
    POGO,
    ILTCG,
    MPX,
    REPRO,
    EX_DLLCHARACTERISTICS,
    UNKNOWN(u32),
}

impl Type {
    /// The kind that the registry gives for a raw value.
    pub open spec fn of_value(value: u32) -> Type {
        match value {
            1 => Type::COFF,
            2 => Type::CODEVIEW,
            3 => Type::FPO,
            4 => Type::MISC,
            5 => Type::EXCEPTION,
            6 => Type::FIXUP,
            7 => Type::OMAP_TO_SRC,
            8 => Type::OMAP_FROM_SRC,
            9 => Type::BORLAND,
            10 => Type::RESERVED10,
            11 => Type::CLSID,
            12 => Type::VC_FEATURE,
            13 => Type::POGO,
            14 => Type::ILTCG,
            15 => Type::MPX,
            16 => Type::REPRO,
            20 => Type::EX_DLLCHARACTERISTICS,
            _ => Type::UNKNOWN(value),
        }
    }

    /// The raw value that stands for this kind.
    pub open spec fn value(self) -> u32 {
        match self {
            Type::COFF => 1,
            Type::CODEVIEW => 2,
            Type::FPO => 3,
            Type::MISC => 4,
            Type::EXCEPTION => 5,
            Type::FIXUP => 6,
            Type::OMAP_TO_SRC => 7,
            Type::OMAP_FROM_SRC => 8,
            Type::BORLAND => 9,
            Type::RESERVED10 => 10,
            Type::CLSID => 11,
            Type::VC_FEATURE => 12,
            Type::POGO => 13,
            Type::ILTCG => 14,
            Type::MPX => 15,
            Type::REPRO => 16,
            Type::EX_DLLCHARACTERISTICS => 20,
            Type::UNKNOWN(raw) => raw,
        }
    }

    /// A kind is canonical when it is the one that the registry gives for its
    /// raw value: a canonical `UNKNOWN` never carries a value that has a name.
    pub open spec fn is_canonical(self) -> bool {
        self matches Type::UNKNOWN(raw) ==> Type::of_value(raw) is UNKNOWN
    }

    /// Looks `value` up in the registry. A value without a name comes back as
    /// `UNKNOWN(value)`; no value is rejected.
    pub fn from_value(value: u32) -> (kind: Type)
        ensures
            kind == Type::of_value(value),
    {
        match value {
            1 => Type::COFF,
            2 => Type::CODEVIEW,
            3 => Type::FPO,
            4 => Type::MISC,
            5 => Type::EXCEPTION,
            6 => Type::FIXUP,
            7 => Type::OMAP_TO_SRC,
            8 => Type::OMAP_FROM_SRC,
            9 => Type::BORLAND,
            10 => Type::RESERVED10,
            11 => Type::CLSID,
            12 => Type::VC_FEATURE,
            13 => Type::POGO,
            14 => Type::ILTCG,
            15 => Type::MPX,
            16 => Type::REPRO,
            20 => Type::EX_DLLCHARACTERISTICS,
            _ => Type::UNKNOWN(value),
        }
    }

    /// The raw value of this kind. For `UNKNOWN` it is the value carried.
    pub fn to_value(&self) -> (raw: u32)
        ensures
            raw == self.value(),
    {
        match self {
            Type::COFF => 1,
            Type::CODEVIEW => 2,
            Type::FPO => 3,
            Type::MISC => 4,
            Type::EXCEPTION => 5,
            Type::FIXUP => 6,
            Type::OMAP_TO_SRC => 7,
            Type::OMAP_FROM_SRC => 8,
            Type::BORLAND => 9,
            Type::RESERVED10 => 10,
            Type::CLSID => 11,
            Type::VC_FEATURE => 12,
            Type::POGO => 13,
            Type::ILTCG => 14,
            Type::MPX => 15,
            Type::REPRO => 16,
            Type::EX_DLLCHARACTERISTICS => 20,
            Type::UNKNOWN(raw) => *raw,
        }
    }

    /// Every raw value survives the registry: the kind found for a value has
    /// that value as its raw value, whether the value has a name or not.
    pub proof fn lemma_value_round_trip(value: u32)
        ensures
            Type::of_value(value).value() == value,
            Type::of_value(value).is_canonical(),
    {
    }

    /// A canonical kind, and no other, is found again from its raw value.
    pub proof fn lemma_kind_round_trip(kind: Type)
        ensures
            kind.is_canonical() <==> Type::of_value(kind.value()) == kind,
    {
    }
}

/// A decoded entry of the debug directory, as the binary that owns it keeps
/// it.
#[derive(Debug)]
pub struct Entry {
    pub characteristics: u32,
    pub timestamp: u32,
    pub major_version: u16,
    pub minor_version: u16,
    /// The value that the registry of debug kinds is looked up with.
    pub debug_type: u32,
    /// The declared size of the payload, in bytes.
    pub sizeof_data: u32,
    pub addressof_rawdata: u32,
    pub pointerto_rawdata: u32,
    /// The payload of the entry.
    pub payload: Vec<u8>,
}

/// What every flavour of debug entry can be asked.
pub trait DebugEntry {
    /// The record that this view reads.
    spec fn entry(&self) -> Entry;

    /// The record itself. The accessors below are written over it.
    fn get_base(&self) -> (base: &Entry)
        ensures
            *base == self.entry(),
    ;

    fn characteristics(&self) -> (value: u32)
        ensures
            value == self.entry().characteristics,
    {
        self.get_base().characteristics
    }

    fn timestamp(&self) -> (value: u32)
        ensures
            value == self.entry().timestamp,
    {
        self.get_base().timestamp
    }

    fn major_version(&self) -> (value: u16)
        ensures
            value == self.entry().major_version,
    {
        self.get_base().major_version
    }

    fn minor_version(&self) -> (value: u16)
        ensures
            value == self.entry().minor_version,
    {
        self.get_base().minor_version
    }

    /// The kind of the entry, as the registry names it.
    fn get_type(&self) -> (kind: Type)
        ensures
            kind == Type::of_value(self.entry().debug_type),
    {
        Type::from_value(self.get_base().debug_type)
    }

    /// The declared size of the payload, in bytes.
    fn sizeof_data(&self) -> (value: u32)
        ensures
            value == self.entry().sizeof_data,
    {
        self.get_base().sizeof_data
    }

    fn addressof_rawdata(&self) -> (value: u32)
        ensures
            value == self.entry().addressof_rawdata,
    {
        self.get_base().addressof_rawdata
    }

    fn pointerto_rawdata(&self) -> (value: u32)
        ensures
            value == self.entry().pointerto_rawdata,
    {
        self.get_base().pointerto_rawdata
    }

    /// The payload of the entry, borrowed from the record.
    fn payload(&self) -> (bytes: &[u8])
        ensures
            bytes@ == self.entry().payload@,
    {
        self.get_base().payload.as_slice()
    }
}

/// An entry that points to the debugging symbols of the binary.
///
/// The view borrows the record from its owner and cannot outlive it.
#[derive(Debug, Clone, Copy)]
pub struct CodeView<'a> {
    base: &'a Entry,
}

impl DebugEntry for CodeView<'_> {
    closed spec fn entry(&self) -> Entry {
        *self.base
    }

    fn get_base(&self) -> (base: &Entry) {
        self.base
    }
}

/// An entry that holds the data of profile guided optimisation.
///
/// The view borrows the record from its owner and cannot outlive it.
#[derive(Debug, Clone, Copy)]
pub struct Pogo<'a> {
    base: &'a Entry,
}

impl DebugEntry for Pogo<'_> {
    closed spec fn entry(&self) -> Entry {
        *self.base
    }

    fn get_base(&self) -> (base: &Entry) {
        self.base
    }
}

/// An entry that marks a reproducible build.
///
/// The view borrows the record from its owner and cannot outlive it.
#[derive(Debug, Clone, Copy)]
pub struct Repro<'a> {
    base: &'a Entry,
}

impl DebugEntry for Repro<'_> {
    closed spec fn entry(&self) -> Entry {
        *self.base
    }

    fn get_base(&self) -> (base: &Entry) {
        self.base
    }
}

/// An entry without a structure of its own beyond the common fields.
///
/// The view borrows the record from its owner and cannot outlive it.
#[derive(Debug, Clone, Copy)]
pub struct Generic<'a> {
    base: &'a Entry,
}

impl DebugEntry for Generic<'_> {
    closed spec fn entry(&self) -> Entry {
        *self.base
    }

    fn get_base(&self) -> (base: &Entry) {
        self.base
    }
}

impl<'a> Repro<'a> {
    /// The hash of the build, which is the payload of the entry.
    pub fn hash(&self) -> (bytes: &'a [u8])
        ensures
            bytes@ == self.entry().payload@,
    {
        self.base.payload.as_slice()
    }
}

/// The flavours of debug entry. Every entry is exactly one of them.
#[derive(Debug, Clone, Copy)]
pub enum Entries<'a> {
    CodeView(CodeView<'a>),
    Pogo(Pogo<'a>),
    Repro(Repro<'a>),
    Generic(Generic<'a>),
}

impl<'a> Entries<'a> {
    /// The record that this entry reads, whichever flavour it is.
    pub open spec fn entry(self) -> Entry {
        match self {
            Entries::CodeView(view) => view.entry(),
            Entries::Pogo(view) => view.entry(),
            Entries::Repro(view) => view.entry(),
            Entries::Generic(view) => view.entry(),
        }
    }

    /// Whether the flavour is the one that the kind of the record calls
    /// for. The kinds `CODEVIEW`, `POGO` and `REPRO` have a flavour each;
    /// every other kind, a value without a name included, is `Generic`.
    pub open spec fn fits(self) -> bool {
        let kind = Type::of_value(self.entry().debug_type);
        match self {
            Entries::CodeView(_) => kind == Type::CODEVIEW,
            Entries::Pogo(_) => kind == Type::POGO,
            Entries::Repro(_) => kind == Type::REPRO,
            Entries::Generic(_) => kind != Type::CODEVIEW && kind != Type::POGO && kind
                != Type::REPRO,
        }
    }

    /// The flavour of `entry`: no entry is left without one.
    pub fn from_entry(entry: &'a Entry) -> (flavour: Entries<'a>)
        ensures
            flavour.entry() == *entry,
            flavour.fits(),
    {
        match Type::from_value(entry.debug_type) {
            Type::CODEVIEW => Entries::CodeView(CodeView { base: entry }),
            Type::POGO => Entries::Pogo(Pogo { base: entry }),
            Type::REPRO => Entries::Repro(Repro { base: entry }),
            _ => Entries::Generic(Generic { base: entry }),
        }
    }

    /// The debug entries of a binary, one view for each record of
    /// `entries`, in their order and each in its flavour.
    pub fn from_entries(entries: &'a [Entry]) -> (flavours: Vec<Entries<'a>>)
        ensures
            flavours@.len() == entries@.len(),
            forall|i: int|
                0 <= i < entries@.len() ==> (#[trigger] flavours@[i]).entry() == entries@[i]
                    && flavours@[i].fits(),
    {
        let mut flavours: Vec<Entries<'a>> = Vec::new();
        let mut i: usize = 0;
        while i < entries.len()
            invariant
                i <= entries@.len(),
                flavours@.len() == i,
                forall|j: int|
                    0 <= j < i ==> (#[trigger] flavours@[j]).entry() == entries@[j]
                        && flavours@[j].fits(),
            decreases entries.len() - i,
        {
            flavours.push(Entries::from_entry(&entries[i]));
            i += 1;
        }
        flavours
    }

    /// An entry has one flavour only: two views of the same record that
    /// both fit are of the same flavour.
    pub proof fn lemma_one_flavour_fits(one: Entries<'a>, other: Entries<'a>)
        requires
            one.entry() == other.entry(),
            one.fits(),
            other.fits(),
        ensures
            one is CodeView <==> other is CodeView,
            one is Pogo <==> other is Pogo,
            one is Repro <==> other is Repro,
            one is Generic <==> other is Generic,
    {
    }
}

} // verus!
