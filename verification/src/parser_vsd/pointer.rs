//! Directory pointers: the fixed 20-byte records that locate chunks.

use super::error::ParseError;
use super::vsd_constants::object_types::VSD_FONTFACES;
use super::vsd_constants::object_types::VSD_NAMEIDX;
use super::vsd_constants::object_types::VSD_NAMEIDX123;
use super::vsd_constants::object_types::VSD_NAME_LIST;
use super::vsd_constants::object_types::VSD_NAME_LIST2;
use super::vsd_constants::object_types::VSD_OLE_LIST;
use super::vsd_constants::object_types::VSD_PAGE;
use super::vsd_constants::object_types::VSD_STENCILS;
use super::vsd_constants::object_types::VSD_STENCIL_PAGE;
use super::vsdinternal_stream::VSDInternalStream;
use crate::bytes::read_u32;
use crate::bytes::u32_le;
use crate::utils::has_bytes;
use crate::utils::skip_bytes;
use vstd::prelude::*;

verus! {

/// Bytes that one pointer record takes.
pub const POINTER_SIZE: usize = 20;

/// What a chunk means to whoever collects the document's content.
#[derive(Clone, Copy, Debug, PartialEq, Eq, Structural)]
pub enum ChunkCategory {
    /// A drawing page.
    Page,
    /// The container of all stencils.
    Stencils,
    /// One stencil.
    StencilPage,
    /// A list of embedded objects.
    OleList,
    /// Anything else.
    Unclassified,
}

/// The group in which a directory visits a pointer.
#[derive(Clone, Copy, Debug, PartialEq, Eq, Structural)]
pub enum Bucket {
    /// Tables of names: visited first.
    NameList,
    /// Indices into the names: visited second.
    NameIndex,
    /// Font tables: visited third.
    FontFaces,
    /// Everything else: visited last, in the order that the directory gives.
    Generic,
}

/// The category that a type tag stands for.
pub open spec fn category_of(tag: u8) -> ChunkCategory {
    if tag == VSD_PAGE {
        ChunkCategory::Page
    } else if tag == VSD_STENCILS {
        ChunkCategory::Stencils
    } else if tag == VSD_STENCIL_PAGE {
        ChunkCategory::StencilPage
    } else if tag == VSD_OLE_LIST {
        ChunkCategory::OleList
    } else {
        ChunkCategory::Unclassified
    }
}

/// The bucket that a type tag falls into.
pub open spec fn bucket_of(tag: u8) -> Bucket {
    if tag == VSD_NAME_LIST || tag == VSD_NAME_LIST2 {
        Bucket::NameList
    } else if tag == VSD_NAMEIDX || tag == VSD_NAMEIDX123 {
        Bucket::NameIndex
    } else if tag == VSD_FONTFACES {
        Bucket::FontFaces
    } else {
        Bucket::Generic
    }
}

/// Locates one chunk in the raw document and says how to read it.
#[derive(Clone, Copy, Debug, PartialEq, Eq, Structural)]
pub struct Pointer {
    /// Kind of the chunk; only the low byte counts.  Zero marks an unused
    /// slot.
    pub type_tag: u32,
    /// Bit 1: the chunk is compressed.  Bits 4 to 7: how to read it.
    pub format: u32,
    /// Where the chunk starts in the raw document.
    pub offset: u32,
    /// How many bytes the chunk takes there.
    pub length: u32,
}

/// The pointer record that starts at `at`: type, four bytes that mean
/// nothing, offset, length, format.
pub open spec fn pointer_at(bytes: Seq<u8>, at: int) -> Pointer {
    Pointer {
        type_tag: u32_le(bytes, at) as u32,
        offset: u32_le(bytes, at + 8) as u32,
        length: u32_le(bytes, at + 12) as u32,
        format: u32_le(bytes, at + 16) as u32,
    }
}

impl Pointer {
    /// The low byte of the type.
    pub open spec fn spec_tag(self) -> u8 {
        (self.type_tag % 256) as u8
    }

    /// Whether the slot is unused.
    pub open spec fn spec_is_empty(self) -> bool {
        self.type_tag == 0
    }

    /// Whether the chunk is stored compressed.
    pub open spec fn spec_is_compressed(self) -> bool {
        self.format & 2 == 2
    }

    /// Bytes at the head of the decoded chunk that do not belong to its
    /// content: four in a compressed chunk, none otherwise.
    pub open spec fn spec_shift(self) -> u32 {
        if self.spec_is_compressed() {
            4
        } else {
            0
        }
    }

    /// The tag in bits 4 to 7 of the format.
    pub open spec fn spec_content_kind(self) -> u32 {
        (self.format >> 4) & 0xF
    }

    /// A pointer with every field zero: an unused slot.
    pub fn new() -> (p: Self)
        ensures
            p == (Pointer { type_tag: 0, format: 0, offset: 0, length: 0 }),
            p.spec_is_empty(),
    {
        Pointer { type_tag: 0, format: 0, offset: 0, length: 0 }
    }

    /// Decodes the record that starts at `at`.
    pub fn decode(bytes: &[u8], at: usize) -> (p: Self)
        requires
            at + 20 <= bytes.len(),
        ensures
            p == pointer_at(bytes@, at as int),
    {
        Pointer {
            type_tag: read_u32(bytes, at),
            offset: read_u32(bytes, at + 8),
            length: read_u32(bytes, at + 12),
            format: read_u32(bytes, at + 16),
        }
    }

    /// Reads a record at the cursor and moves past it.  Where fewer than 20
    /// bytes are left the read fails: the pointer keeps its value and the
    /// cursor goes to the end.
    pub fn read(&mut self, stream: &mut VSDInternalStream) -> (r: Result<(), ParseError>)
        ensures
            final(stream)@ == old(stream)@,
            has_bytes(old(stream), 20) ==> r.is_ok() && *final(self) == pointer_at(
                old(stream)@,
                old(stream).pos(),
            ) && final(stream).pos() == old(stream).pos() + 20,
            !has_bytes(old(stream), 20) ==> r == Err::<(), ParseError>(ParseError::Io)
                && *final(self) == *old(self)
                && final(stream).pos() == old(stream)@.len(),
    {
        let at: usize = stream.tell() as usize;
        let bytes = stream.as_slice();
        if bytes.len() - at >= 20 {
            *self = Pointer::decode(bytes, at);
            let _ = skip_bytes(stream, 20);
            Ok(())
        } else {
            let _ = skip_bytes(stream, 20);
            Err(ParseError::Io)
        }
    }

    /// The low byte of the type.
    pub fn tag(&self) -> (tag: u8)
        ensures
            tag == self.spec_tag(),
    {
        (self.type_tag % 256) as u8
    }

    /// Whether the slot is unused.
    pub fn is_empty(&self) -> (empty: bool)
        ensures
            empty == self.spec_is_empty(),
    {
        self.type_tag == 0
    }

    /// Whether the chunk is stored compressed.
    pub fn is_compressed(&self) -> (compressed: bool)
        ensures
            compressed == self.spec_is_compressed(),
    {
        (self.format & 2) == 2
    }

    /// Bytes at the head of the decoded chunk that do not belong to its
    /// content.
    pub fn shift(&self) -> (shift: u32)
        ensures
            shift == self.spec_shift(),
    {
        if self.is_compressed() {
            4
        } else {
            0
        }
    }

    /// The tag in bits 4 to 7 of the format.
    pub fn content_kind(&self) -> (kind: u32)
        ensures
            kind == self.spec_content_kind(),
    {
        (self.format >> 4) & 0xF
    }

    /// What the chunk means to a collector.
    pub fn category(&self) -> (category: ChunkCategory)
        ensures
            category == category_of(self.spec_tag()),
    {
        let tag: u8 = self.tag();
        if tag == VSD_PAGE {
            ChunkCategory::Page
        } else if tag == VSD_STENCILS {
            ChunkCategory::Stencils
        } else if tag == VSD_STENCIL_PAGE {
            ChunkCategory::StencilPage
        } else if tag == VSD_OLE_LIST {
            ChunkCategory::OleList
        } else {
            ChunkCategory::Unclassified
        }
    }

    /// The group in which a directory visits the pointer.
    pub fn bucket(&self) -> (bucket: Bucket)
        ensures
            bucket == bucket_of(self.spec_tag()),
    {
        let tag: u8 = self.tag();
        if tag == VSD_NAME_LIST || tag == VSD_NAME_LIST2 {
            Bucket::NameList
        } else if tag == VSD_NAMEIDX || tag == VSD_NAMEIDX123 {
            Bucket::NameIndex
        } else if tag == VSD_FONTFACES {
            Bucket::FontFaces
        } else {
            Bucket::Generic
        }
    }
}

} // verus!
