//! The traversal of a document: from the trailer pointer through every
//! directory, each chunk visited once, in the order that the format fixes.

use super::directory::cursor_after_header;
use super::directory::dispatch_order;
use super::directory::header_of;
use super::directory::order_entries;
use super::directory::order_pointers;
use super::directory::pointer_table;
use super::directory::read_order;
use super::directory::read_pointer_info;
use super::directory::read_pointers;
use super::directory::DirectoryHeader;
use super::error::ParseError;
use super::pointer::category_of;
use super::pointer::pointer_at;
use super::pointer::ChunkCategory;
use super::pointer::Pointer;
use super::vsd_constants::object_types::VSD_COLORS;
use super::vsdinternal_stream::materialized;
use super::vsdinternal_stream::VSDInternalStream;
use std::collections::HashSet;
use vstd::prelude::*;
use vstd::slice::slice_subrange;

verus! {

/// Where the trailer pointer, the root of the traversal, stands in the raw
/// document.
pub const TRAILER_POINTER_OFFSET: usize = 0x24;

/// The deepest level at which a directory is still expanded.
pub const MAX_LEVEL: u32 = 256;

/// What the traversal tells a collector, in the order in which it happens.
#[derive(Clone, Copy, Debug, PartialEq, Eq, Structural)]
pub enum Notification {
    /// The chunk behind slot `index` of a directory is visited at depth
    /// `level`.
    Visit { index: u32, level: u32, pointer: Pointer },
    /// A page begins.
    StartPage { id: u32 },
    /// The page that began last is complete.
    EndPage,
    /// The container of stencils begins.
    StartStencils,
    /// The container of stencils is complete.
    EndStencils,
    /// A stencil begins.
    StartStencilPage { id: u32 },
    /// The stencil that began last is complete and is to be registered
    /// under `id`.
    RegisterStencil { id: u32 },
    /// A list of embedded objects is met.
    OleList { id: u32 },
    /// The chunk visited last is a flat run of fields.
    Blob { index: u32 },
    /// The chunk visited last is a sequence of records.
    Records { index: u32 },
    /// The chunk that starts at `offset` is a directory and its expansion
    /// begins.
    EnterDirectory { offset: u32 },
    /// The expansion of the directory at `offset` is complete.
    LeaveDirectory { offset: u32 },
}

/// The bytes of the raw document from `offset` on: nothing where the
/// offset lies beyond its end.
pub open spec fn chunk_source(doc: Seq<u8>, offset: u32) -> Seq<u8> {
    if offset <= doc.len() {
        doc.skip(offset as int)
    } else {
        Seq::empty()
    }
}

/// The decoded chunk that `pointer` locates in `doc`.  A chunk that runs
/// over the end of the document is cut off there.
pub open spec fn chunk_of(doc: Seq<u8>, pointer: Pointer) -> Seq<u8> {
    materialized(
        chunk_source(doc, pointer.offset),
        pointer.length as int,
        pointer.spec_is_compressed(),
    )
}

/// What a collector is told when a chunk of `category` begins.
pub open spec fn opening(category: ChunkCategory, index: u32) -> Seq<Notification> {
    match category {
        ChunkCategory::Page => seq![Notification::StartPage { id: index }],
        ChunkCategory::Stencils => seq![Notification::StartStencils],
        ChunkCategory::StencilPage => seq![Notification::StartStencilPage { id: index }],
        ChunkCategory::OleList => seq![Notification::OleList { id: index }],
        ChunkCategory::Unclassified => Seq::empty(),
    }
}

/// What a collector is told when a chunk of `category` is complete.
pub open spec fn closing(category: ChunkCategory, index: u32) -> Seq<Notification> {
    match category {
        ChunkCategory::Page => seq![Notification::EndPage],
        ChunkCategory::Stencils => seq![Notification::EndStencils],
        ChunkCategory::StencilPage => seq![Notification::RegisterStencil { id: index }],
        ChunkCategory::OleList => Seq::empty(),
        ChunkCategory::Unclassified => Seq::empty(),
    }
}

/// How the chunk's own bytes are to be read, by the tag in its format.
pub open spec fn content(pointer: Pointer, index: u32) -> Seq<Notification> {
    let kind = pointer.spec_content_kind();
    if kind == 0x0 || kind == 0x4 || kind == 0x5 {
        seq![Notification::Blob { index }]
    } else if kind == 0x8 || kind == 0xC || kind == 0xD {
        seq![Notification::Records { index }]
    } else {
        Seq::empty()
    }
}

/// Whether the chunk is itself a directory.
pub open spec fn is_directory(pointer: Pointer) -> bool {
    pointer.spec_content_kind() == 0x5 && pointer.spec_tag() != VSD_COLORS
}

/// Levels that remain below `level` before the traversal refuses to go
/// deeper.
pub open spec fn depth_left(level: nat) -> nat {
    if level <= MAX_LEVEL + 1 {
        (MAX_LEVEL + 2 - level) as nat
    } else {
        0
    }
}

/// `first`, then what `rest` holds, if that succeeded.
pub open spec fn prepend(first: Seq<Notification>, rest: Result<Seq<Notification>, ParseError>)
    -> Result<Seq<Notification>, ParseError> {
    match rest {
        Ok(more) => Ok(first + more),
        Err(error) => Err(error),
    }
}

/// What the visit of one chunk tells a collector.  `open` holds the
/// offsets of the directories that are being expanded around it.
///
/// The chunk is announced, its category opened, its content handed over.
/// A directory is then expanded between two notifications of its own,
/// unless its offset is already open: such a chunk is not expanded, which
/// is no error.  Then its category is closed.
pub open spec fn dispatched(
    doc: Seq<u8>,
    pointer: Pointer,
    index: u32,
    level: nat,
    open: Set<u32>,
) -> Result<Seq<Notification>, ParseError>
    decreases depth_left(level), 0nat, 0nat,
{
    let category = category_of(pointer.spec_tag());
    let head = seq![Notification::Visit { index, level: level as u32, pointer }] + opening(
        category,
        index,
    ) + content(pointer, index);
    let tail = closing(category, index);
    if !is_directory(pointer) || open.contains(pointer.offset) {
        Ok(head + tail)
    } else if level >= MAX_LEVEL {
        Err(ParseError::TooDeep)
    } else {
        match resolved(
            doc,
            chunk_of(doc, pointer),
            pointer.spec_shift(),
            level + 1,
            open.insert(pointer.offset),
        ) {
            Ok(inner) => Ok(
                head + seq![Notification::EnterDirectory { offset: pointer.offset }] + inner
                    + seq![Notification::LeaveDirectory { offset: pointer.offset }] + tail,
            ),
            Err(error) => Err(error),
        }
    }
}

/// What the expansion of the directory in `chunk` tells a collector: the
/// visits of its pointers, in visiting order.  It fails where the
/// directory lies too deep, where its header or its table of pointers
/// cannot be read, and where the visit of a pointer fails.
pub open spec fn resolved(doc: Seq<u8>, chunk: Seq<u8>, shift: u32, level: nat, open: Set<u32>)
    -> Result<Seq<Notification>, ParseError>
    decreases depth_left(level), 2nat, 0nat,
{
    if level >= MAX_LEVEL {
        Err(ParseError::TooDeep)
    } else {
        match header_of(chunk, shift) {
            Err(error) => Err(error),
            Ok(header) => {
                if 20 * header.pointer_count > chunk.len() {
                    Err(ParseError::Io)
                } else {
                    let table = pointer_table(chunk, header.pointer_count as nat);
                    let entries = order_entries(
                        chunk,
                        20 * header.pointer_count,
                        header.spec_order_len() as nat,
                    );
                    dispatched_all(doc, table, dispatch_order(table, entries), 0, level, open)
                }
            },
        }
    }
}

/// The visits of the slots `order[from..]` of `table`, one after the other,
/// each one level below the directory.  The first failure ends them.
pub open spec fn dispatched_all(
    doc: Seq<u8>,
    table: Seq<Pointer>,
    order: Seq<u32>,
    from: nat,
    level: nat,
    open: Set<u32>,
) -> Result<Seq<Notification>, ParseError>
    decreases depth_left(level), 1nat, order.len() - from,
{
    if from >= order.len() {
        Ok(Seq::empty())
    } else {
        let index = order[from as int];
        match dispatched(doc, table[index as int], index, level + 1, open) {
            Err(error) => Err(error),
            Ok(first) => prepend(first, dispatched_all(doc, table, order, from + 1, level, open)),
        }
    }
}

/// The trailer pointer of `doc`, if the document is long enough to hold it.
pub open spec fn trailer_of(doc: Seq<u8>) -> Option<Pointer> {
    if doc.len() >= TRAILER_POINTER_OFFSET + 20 {
        Some(pointer_at(doc, TRAILER_POINTER_OFFSET as int))
    } else {
        None
    }
}

/// What one pass over `doc` tells a collector.
pub open spec fn document_pass(doc: Seq<u8>) -> Result<Seq<Notification>, ParseError> {
    match trailer_of(doc) {
        None => Err(ParseError::Io),
        Some(trailer) => resolved(doc, chunk_of(doc, trailer), trailer.spec_shift(), 0, Set::empty()),
    }
}

/// The raw offsets of the chunks that `trace` visits, in visiting order.
pub open spec fn visited_offsets(trace: Seq<Notification>) -> Seq<u32>
    decreases trace.len(),
{
    if trace.len() == 0 {
        Seq::empty()
    } else {
        let before = visited_offsets(trace.drop_last());
        match trace.last() {
            Notification::Visit { pointer, .. } => before.push(pointer.offset),
            _ => before,
        }
    }
}

/// Whether the executable result `got` is the outcome `expected`.
pub open spec fn agrees(
    got: Result<Vec<Notification>, ParseError>,
    expected: Result<Seq<Notification>, ParseError>,
) -> bool {
    match (got, expected) {
        (Ok(trace), Ok(wanted)) => trace@ == wanted,
        (Err(error), Err(wanted)) => error == wanted,
        _ => false,
    }
}

/// Reads one document.
#[derive(Debug)]
pub struct VSDParser {
    input: Vec<u8>,
    styles: Vec<Notification>,
    content: Vec<Notification>,
}

impl VSDParser {
    /// The raw document.
    pub closed spec fn doc(&self) -> Seq<u8> {
        self.input@
    }

    /// What the first pass told: the pass that collects styles.
    pub closed spec fn styles_trace(&self) -> Seq<Notification> {
        self.styles@
    }

    /// What the second pass told: the pass that emits content.
    pub closed spec fn content_trace(&self) -> Seq<Notification> {
        self.content@
    }

    /// A parser for the raw document `data`, with nothing parsed yet.
    pub fn new(data: Vec<u8>) -> (parser: Self)
        ensures
            parser.doc() == data@,
            parser.styles_trace() == Seq::<Notification>::empty(),
            parser.content_trace() == Seq::<Notification>::empty(),
    {
        Self { input: data, styles: Vec::new(), content: Vec::new() }
    }

    /// The raw document.
    pub fn data(&self) -> (bytes: &[u8])
        ensures
            bytes@ == self.doc(),
    {
        self.input.as_slice()
    }

    /// What the first pass told.
    pub fn styles_pass(&self) -> (trace: &Vec<Notification>)
        ensures
            trace@ == self.styles_trace(),
    {
        &self.styles
    }

    /// What the second pass told.
    pub fn content_pass(&self) -> (trace: &Vec<Notification>)
        ensures
            trace@ == self.content_trace(),
    {
        &self.content
    }

    /// Decodes the chunk that `pointer` locates.  A chunk that starts
    /// beyond the end of the document is empty; one that runs over the end
    /// is cut off there.
    pub fn materialize(&self, pointer: &Pointer) -> (chunk: VSDInternalStream)
        ensures
            chunk@ == chunk_of(self.doc(), *pointer),
            chunk.pos() == 0,
            !pointer.spec_is_compressed() ==> chunk@.len() <= pointer.length && chunk@.len()
                <= chunk_source(self.doc(), pointer.offset).len(),
    {
        let data = self.input.as_slice();
        let start: usize = if pointer.offset as usize <= data.len() {
            pointer.offset as usize
        } else {
            data.len()
        };
        let source = slice_subrange(data, start, data.len());
        assert(source@ =~= chunk_source(self.doc(), pointer.offset));
        VSDInternalStream::new(source, pointer.length as usize, pointer.is_compressed())
    }

    /// Reads the whole document twice, as the two passes of a conversion
    /// do, and keeps what each pass told.  Returns whether the document
    /// could be read; where it could not, nothing is kept.
    pub fn parse_main(&mut self) -> (ok: bool)
        ensures
            final(self).doc() == old(self).doc(),
            ok == document_pass(old(self).doc()).is_ok(),
            ok ==> final(self).styles_trace() == document_pass(old(self).doc()).unwrap()
                && final(self).content_trace() == document_pass(old(self).doc()).unwrap(),
            !ok ==> final(self).styles_trace().len() == 0 && final(self).content_trace().len()
                == 0,
            final(self).styles_trace() == final(self).content_trace(),
            visited_offsets(final(self).styles_trace()) == visited_offsets(
                final(self).content_trace(),
            ),
    {
        self.parse_passes().is_ok()
    }

    /// Does what `parse_main` does and says why a document could not be
    /// read.
    pub fn parse_passes(&mut self) -> (r: Result<(), ParseError>)
        ensures
            final(self).doc() == old(self).doc(),
            match document_pass(old(self).doc()) {
                Ok(trace) => r.is_ok() && final(self).styles_trace() == trace
                    && final(self).content_trace() == trace,
                Err(error) => r == Err::<(), ParseError>(error) && final(self).styles_trace().len()
                    == 0 && final(self).content_trace().len() == 0,
            },
    {
        self.styles = Vec::new();
        self.content = Vec::new();
        if self.input.len() < TRAILER_POINTER_OFFSET + 20 {
            return Err(ParseError::Io);
        }
        let trailer: Pointer = Pointer::decode(self.input.as_slice(), TRAILER_POINTER_OFFSET);
        let shift: u32 = trailer.shift();
        let mut trailer_stream: VSDInternalStream = self.materialize(&trailer);
        match self.parse_document(&mut trailer_stream, shift) {
            Ok(trace) => {
                self.styles = trace;
            },
            Err(error) => {
                return Err(error);
            },
        }
        match self.parse_document(&mut trailer_stream, shift) {
            Ok(trace) => {
                self.content = trace;
                Ok(())
            },
            Err(error) => {
                self.styles = Vec::new();
                Err(error)
            },
        }
    }

    /// One pass over the document whose trailer chunk is `input`.  The set
    /// of open directories is empty before and after.
    pub fn parse_document(&self, input: &mut VSDInternalStream, shift: u32) -> (r: Result<
        Vec<Notification>,
        ParseError,
    >)
        ensures
            final(input)@ == old(input)@,
            final(input).pos() == cursor_after_header(old(input)@, shift),
            agrees(r, resolved(self.doc(), old(input)@, shift, 0, Set::empty())),
    {
        let mut visited: HashSet<u32> = HashSet::new();
        let r = self.handle_streams(input, shift, 0, &mut visited);
        assert(visited@ == Set::<u32>::empty());
        r
    }

    /// Expands the directory in `input`: reads its header, its pointers
    /// and its explicit order, and visits the pointers in visiting order.
    /// The cursor of `input` is left behind the header, and `visited` as it
    /// was found.
    pub fn handle_streams(
        &self,
        input: &mut VSDInternalStream,
        shift: u32,
        level: u32,
        visited: &mut HashSet<u32>,
    ) -> (r: Result<Vec<Notification>, ParseError>)
        ensures
            final(input)@ == old(input)@,
            final(input).pos() == if level >= MAX_LEVEL {
                old(input).pos()
            } else {
                cursor_after_header(old(input)@, shift)
            },
            final(visited)@ == old(visited)@,
            agrees(r, resolved(self.doc(), old(input)@, shift, level as nat, old(visited)@)),
        decreases depth_left(level as nat), 2nat, 0nat,
    {
        if level >= MAX_LEVEL {
            return Err(ParseError::TooDeep);
        }
        let header: DirectoryHeader = match read_pointer_info(input, shift) {
            Ok(header) => header,
            Err(error) => {
                return Err(error);
            },
        };
        let table: Vec<Pointer> = match read_pointers(input.as_slice(), header.pointer_count) {
            Ok(table) => table,
            Err(error) => {
                return Err(error);
            },
        };
        let size: usize = input.get_size();
        assert(20 * header.pointer_count <= size);
        let entries: Vec<u32> = read_order(
            input.as_slice(),
            20 * (header.pointer_count as usize),
            header.order_len(),
        );
        let order: Vec<u32> = order_pointers(&table, &entries);
        let ghost wanted = dispatched_all(
            self.doc(),
            table@,
            order@,
            0,
            level as nat,
            old(visited)@,
        );
        let mut trace: Vec<Notification> = Vec::new();
        let mut k: usize = 0;
        assert(wanted == prepend(trace@, wanted)) by {
            if let Ok(more) = wanted {
                assert(trace@ + more =~= more);
            }
        }
        while k < order.len()
            invariant
                k <= order.len(),
                level < MAX_LEVEL,
                input@ == old(input)@,
                input.pos() == cursor_after_header(old(input)@, shift),
                visited@ == old(visited)@,
                wanted == resolved(self.doc(), old(input)@, shift, level as nat, old(visited)@),
                forall|j: int| 0 <= j < order.len() ==> (#[trigger] order@[j]) < table.len(),
                wanted == prepend(
                    trace@,
                    dispatched_all(
                        self.doc(),
                        table@,
                        order@,
                        k as nat,
                        level as nat,
                        old(visited)@,
                    ),
                ),
            decreases order.len() - k,
        {
            let index: u32 = order[k];
            let ghost rest = dispatched_all(
                self.doc(),
                table@,
                order@,
                (k + 1) as nat,
                level as nat,
                old(visited)@,
            );
            match self.handle_stream(table[index as usize], index, level + 1, visited) {
                Ok(mut first) => {
                    let ghost before = trace@;
                    let ghost added = first@;
                    trace.append(&mut first);
                    assert(prepend(before, prepend(added, rest)) == prepend(trace@, rest)) by {
                        if let Ok(more) = rest {
                            assert(before + (added + more) =~= trace@ + more);
                        }
                    }
                },
                Err(error) => {
                    return Err(error);
                },
            }
            k += 1;
        }
        assert(trace@ + Seq::<Notification>::empty() =~= trace@);
        Ok(trace)
    }

    /// Visits one chunk: announces it, opens its category, hands over its
    /// content, expands it where it is a directory that is not being
    /// expanded already, and closes its category.  `visited` is left as it
    /// was found, whether the visit succeeds or fails.
    pub fn handle_stream(&self, ptr: Pointer, idx: u32, level: u32, visited: &mut HashSet<u32>) -> (r:
        Result<Vec<Notification>, ParseError>)
        ensures
            final(visited)@ == old(visited)@,
            agrees(r, dispatched(self.doc(), ptr, idx, level as nat, old(visited)@)),
        decreases depth_left(level as nat), 0nat, 0nat,
    {
        let category: ChunkCategory = ptr.category();
        let mut trace: Vec<Notification> = Vec::new();
        trace.push(Notification::Visit { index: idx, level, pointer: ptr });
        match category {
            ChunkCategory::Page => {
                trace.push(Notification::StartPage { id: idx });
            },
            ChunkCategory::Stencils => {
                trace.push(Notification::StartStencils);
            },
            ChunkCategory::StencilPage => {
                trace.push(Notification::StartStencilPage { id: idx });
            },
            ChunkCategory::OleList => {
                trace.push(Notification::OleList { id: idx });
            },
            ChunkCategory::Unclassified => {},
        }
        let kind: u32 = ptr.content_kind();
        if kind == 0x0 || kind == 0x4 || kind == 0x5 {
            trace.push(Notification::Blob { index: idx });
        } else if kind == 0x8 || kind == 0xC || kind == 0xD {
            trace.push(Notification::Records { index: idx });
        }
        let ghost head = trace@;
        assert(head =~= seq![Notification::Visit { index: idx, level, pointer: ptr }] + opening(
            category,
            idx,
        ) + content(ptr, idx));
        if kind == 0x5 && ptr.tag() != VSD_COLORS {
            if visited.insert(ptr.offset) {
                if level >= MAX_LEVEL {
                    visited.remove(&ptr.offset);
                    assert(visited@ =~= old(visited)@);
                    return Err(ParseError::TooDeep);
                }
                let mut chunk: VSDInternalStream = self.materialize(&ptr);
                let inner = self.handle_streams(&mut chunk, ptr.shift(), level + 1, visited);
                visited.remove(&ptr.offset);
                assert(visited@ =~= old(visited)@);
                match inner {
                    Ok(mut inner) => {
                        trace.push(Notification::EnterDirectory { offset: ptr.offset });
                        trace.append(&mut inner);
                        trace.push(Notification::LeaveDirectory { offset: ptr.offset });
                    },
                    Err(error) => {
                        return Err(error);
                    },
                }
            } else {
                assert(visited@ =~= old(visited)@);
            }
        }
        match category {
            ChunkCategory::Page => {
                trace.push(Notification::EndPage);
            },
            ChunkCategory::Stencils => {
                trace.push(Notification::EndStencils);
            },
            ChunkCategory::StencilPage => {
                trace.push(Notification::RegisterStencil { id: idx });
            },
            ChunkCategory::OleList => {},
            ChunkCategory::Unclassified => {},
        }
        proof {
            let wanted = dispatched(self.doc(), ptr, idx, level as nat, old(visited)@);
            if let Ok(expected) = wanted {
                assert(trace@ =~= expected);
            }
        }
        Ok(trace)
    }
}

} // verus!
