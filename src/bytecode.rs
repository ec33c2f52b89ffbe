use vstd::prelude::*;
use vstd::bytes::*;

use crate::immediate::{append_bytes, splice, write_bytes};

verus! {

/// The two sections that code and data are emitted into.
#[derive(Debug, Clone, Copy, PartialEq, Eq, Hash, Structural)]
pub enum Section {
    Text,
    Data,
}

/// The two growable byte buffers of a program being assembled.
pub struct Bytecode {
    pub text: Vec<u8>,
    pub data: Vec<u8>,
}

/// The bytes of both sections.
pub ghost struct Sections {
    pub text: Seq<u8>,
    pub data: Seq<u8>,
}

impl Sections {
    pub open spec fn get(self, s: Section) -> Seq<u8> {
        match s {
            Section::Text => self.text,
            Section::Data => self.data,
        }
    }

    /// The same sections with section `s` replaced by `b`.
    pub open spec fn with(self, s: Section, b: Seq<u8>) -> Sections {
        match s {
            Section::Text => Sections { text: b, ..self },
            Section::Data => Sections { data: b, ..self },
        }
    }
}

impl View for Bytecode {
    type V = Sections;

    open spec fn view(&self) -> Sections {
        Sections { text: self.text@, data: self.data@ }
    }
}

impl Bytecode {
    /// Two empty sections; `capacity` is a hint for both together.
    pub fn new(capacity: Option<usize>) -> (r: Self)
        ensures
            r@.text.len() == 0,
            r@.data.len() == 0,
    {
        let cap = match capacity {
            Some(c) => c,
            None => 1024,
        };
        Bytecode { text: Vec::with_capacity(cap / 2), data: Vec::with_capacity(cap / 2) }
    }

    pub fn len(&self, section: Section) -> (r: usize)
        ensures
            r == self@.get(section).len(),
    {
        match section {
            Section::Text => self.text.len(),
            Section::Data => self.data.len(),
        }
    }

    /// Appends one byte to `section`.
    pub fn push(&mut self, section: Section, value: u8)
        ensures
            final(self)@ == old(self)@.with(section, old(self)@.get(section).push(value)),
    {
        match section {
            Section::Text => self.text.push(value),
            Section::Data => self.data.push(value),
        }
    }

    /// Appends `bytes` to `section`.
    pub fn extend(&mut self, section: Section, bytes: &[u8])
        ensures
            final(self)@ == old(self)@.with(section, old(self)@.get(section) + bytes@),
    {
        match section {
            Section::Text => append_bytes(&mut self.text, bytes),
            Section::Data => append_bytes(&mut self.data, bytes),
        }
    }

    /// Overwrites the bytes of `section` from `offset` on with `b`.
    pub fn write_at(&mut self, section: Section, offset: usize, b: &Vec<u8>)
        requires
            offset + b@.len() <= old(self)@.get(section).len(),
        ensures
            final(self)@ == old(self)@.with(
                section,
                splice(old(self)@.get(section), offset as int, b@),
            ),
    {
        match section {
            Section::Text => write_bytes(&mut self.text, offset, b),
            Section::Data => write_bytes(&mut self.data, offset, b),
        }
    }

    pub fn write_u8_at(&mut self, section: Section, offset: usize, value: u8)
        requires
            offset + 1 <= old(self)@.get(section).len(),
        ensures
            final(self)@ == old(self)@.with(
                section,
                splice(old(self)@.get(section), offset as int, seq![value]),
            ),
    {
        let b = vec![value];
        assert(b@ =~= seq![value]);
        self.write_at(section, offset, &b);
    }

    pub fn write_u16_at(&mut self, section: Section, offset: usize, value: u16)
        requires
            offset + 2 <= old(self)@.get(section).len(),
        ensures
            final(self)@ == old(self)@.with(
                section,
                splice(old(self)@.get(section), offset as int, spec_u16_to_le_bytes(value)),
            ),
    {
        let b = u16_to_le_bytes(value);
        self.write_at(section, offset, &b);
    }

    pub fn write_u32_at(&mut self, section: Section, offset: usize, value: u32)
        requires
            offset + 4 <= old(self)@.get(section).len(),
        ensures
            final(self)@ == old(self)@.with(
                section,
                splice(old(self)@.get(section), offset as int, spec_u32_to_le_bytes(value)),
            ),
    {
        let b = u32_to_le_bytes(value);
        self.write_at(section, offset, &b);
    }

    pub fn write_u64_at(&mut self, section: Section, offset: usize, value: u64)
        requires
            offset + 8 <= old(self)@.get(section).len(),
        ensures
            final(self)@ == old(self)@.with(
                section,
                splice(old(self)@.get(section), offset as int, spec_u64_to_le_bytes(value)),
            ),
    {
        let b = u64_to_le_bytes(value);
        self.write_at(section, offset, &b);
    }

    /// The text section followed by the data section.
    pub fn finalize(&mut self) -> (r: Vec<u8>)
        ensures
            r@ == old(self)@.text + old(self)@.data,
            final(self)@ == old(self)@,
    {
        let mut bytes: Vec<u8> = Vec::new();
        append_bytes(&mut bytes, self.text.as_slice());
        append_bytes(&mut bytes, self.data.as_slice());
        bytes
    }
}

} // verus!
