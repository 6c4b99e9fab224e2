use rusty_visio_parser::parser_vsd::directory::order_pointers;
use rusty_visio_parser::parser_vsd::directory::read_order;
use rusty_visio_parser::parser_vsd::directory::read_pointer_info;
use rusty_visio_parser::parser_vsd::directory::read_pointers;
use rusty_visio_parser::parser_vsd::directory::DirectoryHeader;
use rusty_visio_parser::parser_vsd::document::is_compound_file;
use rusty_visio_parser::parser_vsd::document::parse_visio_document;
use rusty_visio_parser::parser_vsd::document::Coordinate;
use rusty_visio_parser::parser_vsd::error::ParseError;
use rusty_visio_parser::parser_vsd::pointer::Bucket;
use rusty_visio_parser::parser_vsd::pointer::ChunkCategory;
use rusty_visio_parser::parser_vsd::pointer::Pointer;
use rusty_visio_parser::parser_vsd::vsd_parser::Notification;
use rusty_visio_parser::parser_vsd::vsd_parser::VSDParser;
use rusty_visio_parser::parser_vsd::vsd_parser::MAX_LEVEL;
use rusty_visio_parser::parser_vsd::vsdinternal_stream::encode_literals;
use rusty_visio_parser::parser_vsd::vsdinternal_stream::SeekFrom;
use rusty_visio_parser::parser_vsd::vsdinternal_stream::VSDInternalStream;
use std::collections::HashSet;

fn put_u32(doc: &mut Vec<u8>, at: usize, value: u32) {
    doc[at..at + 4].copy_from_slice(&value.to_le_bytes());
}

fn put_pointer(doc: &mut Vec<u8>, at: usize, pointer: Pointer) {
    put_u32(doc, at, pointer.type_tag);
    put_u32(doc, at + 8, pointer.offset);
    put_u32(doc, at + 12, pointer.length);
    put_u32(doc, at + 16, pointer.format);
}

fn pointer(type_tag: u32, offset: u32, length: u32, format: u32) -> Pointer {
    Pointer { type_tag, format, offset, length }
}

/// A document of `size` bytes with signature, version and a trailer
/// pointer to an uncompressed chunk of `length` bytes at 0x100.
fn document(size: usize, length: u32) -> Vec<u8> {
    let mut doc = vec![0u8; size];
    doc[..18].copy_from_slice(b"Visio (TM) Drawing");
    doc[0x1A] = 11;
    put_pointer(&mut doc, 0x24, pointer(0x14, 0x100, length, 0));
    doc
}

fn visits(trace: &[Notification]) -> Vec<u32> {
    trace
        .iter()
        .filter_map(|n| match n {
            Notification::Visit { index, .. } => Some(*index),
            _ => None,
        })
        .collect()
}

fn offsets(trace: &[Notification]) -> Vec<u32> {
    trace
        .iter()
        .filter_map(|n| match n {
            Notification::Visit { pointer, .. } => Some(pointer.offset),
            _ => None,
        })
        .collect()
}

/// The document of one page: a directory of 40 bytes whose single pointer
/// has a page's type.
fn one_page() -> (Vec<u8>, Pointer) {
    let mut doc = document(0x200, 40);
    let page = pointer(0x15, 0x180, 16, 0);
    put_pointer(&mut doc, 0x100, page);
    put_u32(&mut doc, 0x100 + 21, 1);
    (doc, page)
}

#[test]
fn one_page_gives_one_start_and_one_end() {
    let (doc, page) = one_page();
    let mut parser = VSDParser::new(doc);
    assert!(parser.parse_main());
    let expected = vec![
        Notification::Visit { index: 0, level: 1, pointer: page },
        Notification::StartPage { id: 0 },
        Notification::Blob { index: 0 },
        Notification::EndPage,
    ];
    assert_eq!(parser.content_pass(), &expected);
    assert_eq!(parser.styles_pass(), &expected);
    let starts = expected.iter().filter(|n| matches!(n, Notification::StartPage { .. })).count();
    let ends = expected.iter().filter(|n| matches!(n, Notification::EndPage)).count();
    let stencils =
        expected.iter().filter(|n| matches!(n, Notification::RegisterStencil { .. })).count();
    assert_eq!((starts, ends, stencils), (1, 1, 0));
}

#[test]
fn both_passes_visit_the_same_offsets() {
    let doc = ordered_directory();
    let mut parser = VSDParser::new(doc);
    assert!(parser.parse_main());
    assert_eq!(parser.styles_pass(), parser.content_pass());
    assert_eq!(offsets(parser.styles_pass()), offsets(parser.content_pass()));
    assert_eq!(offsets(parser.content_pass()), vec![0x403, 0x404, 0x405, 0x402, 0x400, 0x401]);
}

/// Two name lists, one font table, three generic chunks and the explicit
/// order 2, 0, 1.
fn ordered_directory() -> Vec<u8> {
    let mut doc = document(0x500, 600);
    let types: [u32; 6] = [0x0246, 0x47, 0x48, 0x2c, 0x32, 0xd8];
    for (i, type_tag) in types.iter().enumerate() {
        put_pointer(&mut doc, 0x100 + 20 * i, pointer(*type_tag, 0x400 + i as u32, 8, 0));
    }
    put_u32(&mut doc, 0x100 + 120, 2);
    put_u32(&mut doc, 0x100 + 124, 0);
    put_u32(&mut doc, 0x100 + 128, 1);
    // the first pointer's type, 0x246, also places the header at 0x242
    put_u32(&mut doc, 0x100 + 0x242, 3);
    put_u32(&mut doc, 0x100 + 0x246, 6);
    doc
}

#[test]
fn directory_order_names_fonts_explicit() {
    let mut parser = VSDParser::new(ordered_directory());
    assert!(parser.parse_main());
    assert_eq!(visits(parser.content_pass()), vec![3, 4, 5, 2, 0, 1]);
}

#[test]
fn directory_order_with_gaps_and_garbled_entries() {
    let mut doc = document(0x600, 900);
    let types: [u32; 9] = [0x0346, 0xd8, 0, 0xc9, 0x47, 0x2c, 0x48, 0x34, 0x4e];
    for (i, type_tag) in types.iter().enumerate() {
        put_pointer(&mut doc, 0x100 + 20 * i, pointer(*type_tag, 0x500 + i as u32, 8, 0));
    }
    let entries: [u32; 5] = [6, 99, 6, 1, 0];
    for (k, entry) in entries.iter().enumerate() {
        put_u32(&mut doc, 0x100 + 180 + 4 * k, *entry);
    }
    put_u32(&mut doc, 0x100 + 0x342, 5);
    put_u32(&mut doc, 0x100 + 0x346, 9);
    let mut parser = VSDParser::new(doc);
    assert!(parser.parse_main());
    assert_eq!(visits(parser.content_pass()), vec![5, 3, 7, 1, 6, 0, 4, 8]);
}

#[test]
fn list_size_of_one_means_no_explicit_order() {
    let mut doc = ordered_directory();
    put_u32(&mut doc, 0x100 + 0x242, 1);
    let mut parser = VSDParser::new(doc);
    assert!(parser.parse_main());
    assert_eq!(visits(parser.content_pass()), vec![3, 4, 5, 0, 1, 2]);
}

#[test]
fn order_entries_beyond_the_chunk_are_left_out() {
    let chunk: Vec<u8> = vec![0, 0, 0, 0, 7, 0, 0, 0, 9, 0, 0, 0, 1, 2];
    assert_eq!(read_order(&chunk, 4, 5), vec![7, 9]);
    assert_eq!(read_order(&chunk, 4, 1), vec![7]);
    assert_eq!(read_order(&chunk, 14, 3), Vec::<u32>::new());
    assert_eq!(read_order(&chunk, 0, 0), Vec::<u32>::new());
}

#[test]
fn order_pointers_on_plain_values() {
    let table = vec![
        pointer(0x46, 0, 0, 0),
        pointer(0x32, 0, 0, 0),
        pointer(0, 0, 0, 0),
        pointer(0x1_00d8, 0, 0, 0),
        pointer(0x47, 0, 0, 0),
    ];
    assert_eq!(order_pointers(&table, &vec![]), vec![1, 3, 0, 4]);
    assert_eq!(order_pointers(&table, &vec![4]), vec![1, 3, 4, 0]);
    assert_eq!(order_pointers(&table, &vec![4, 4, 2, 3, 5, 0]), vec![1, 3, 4, 0]);
    assert_eq!(order_pointers(&vec![], &vec![0, 1]), Vec::<u32>::new());
}

#[test]
fn pointer_fields_are_read_in_file_order() {
    let bytes: Vec<u8> = vec![
        0xAA, 0x15, 0, 0, 0, 0, 0, 0, 0xFF, 0xFF, 0xFF, 0xFF, 0x04, 0x03, 0x02, 0x01, 0x10, 0x20,
        0x30, 0x40, 0x08, 0x07, 0x06, 0x05, 0x52, 0, 0, 0,
    ];
    let p = Pointer::decode(&bytes, 4);
    assert_eq!(p, pointer(0, 0x01020304, 0x40302010, 0x05060708));
    let q = Pointer::decode(&bytes, 0);
    assert_eq!(q.type_tag, 0x15AA);
    assert_eq!(q.offset, 0xFFFFFFFF);
    assert_eq!(q.length, 0x01020304);
    assert_eq!(q.format, 0x40302010);
    let r = Pointer::decode(&bytes, 8);
    assert_eq!(r.format, 0x52);
    assert!(r.is_compressed());
    assert_eq!(r.shift(), 4);
    assert_eq!(r.content_kind(), 5);
}

#[test]
fn pointer_read_moves_the_cursor() {
    let mut bytes = vec![0u8; 50];
    put_pointer(&mut bytes, 5, pointer(0x15, 7, 9, 2));
    let mut stream = VSDInternalStream::new(&bytes, 50, false);
    stream.seek(SeekFrom::Start(5));
    let mut p = Pointer::new();
    assert_eq!(p, pointer(0, 0, 0, 0));
    assert!(p.is_empty());
    assert_eq!(p.read(&mut stream), Ok(()));
    assert_eq!(p, pointer(0x15, 7, 9, 2));
    assert_eq!(stream.tell(), 25);
    assert_eq!(p.read(&mut stream), Ok(()));
    assert_eq!(p, pointer(0, 0, 0, 0));
    assert_eq!(stream.tell(), 45);
    let mut q = pointer(1, 2, 3, 4);
    assert_eq!(q.read(&mut stream), Err(ParseError::Io));
    assert_eq!(q, pointer(1, 2, 3, 4));
    assert_eq!(stream.tell(), 50);
}

#[test]
fn pointer_classification() {
    assert_eq!(pointer(0x15, 0, 0, 0).category(), ChunkCategory::Page);
    assert_eq!(pointer(0x1d, 0, 0, 0).category(), ChunkCategory::Stencils);
    assert_eq!(pointer(0x1e, 0, 0, 0).category(), ChunkCategory::StencilPage);
    assert_eq!(pointer(0x0d, 0, 0, 0).category(), ChunkCategory::OleList);
    assert_eq!(pointer(0x14, 0, 0, 0).category(), ChunkCategory::Unclassified);
    assert_eq!(pointer(0xABCD15, 0, 0, 0).category(), ChunkCategory::Page);
    assert_eq!(pointer(0xABCD15, 0, 0, 0).tag(), 0x15);
    assert_eq!(pointer(0x2c, 0, 0, 0).bucket(), Bucket::NameList);
    assert_eq!(pointer(0x32, 0, 0, 0).bucket(), Bucket::NameList);
    assert_eq!(pointer(0xc9, 0, 0, 0).bucket(), Bucket::NameIndex);
    assert_eq!(pointer(0x34, 0, 0, 0).bucket(), Bucket::NameIndex);
    assert_eq!(pointer(0xd8, 0, 0, 0).bucket(), Bucket::FontFaces);
    assert_eq!(pointer(0x15, 0, 0, 0).bucket(), Bucket::Generic);
    assert!(!pointer(0, 0, 0, 0x51).is_compressed());
    assert!(pointer(0, 0, 0, 0x02).is_compressed());
    assert_eq!(pointer(0, 0, 0, 0x02).shift(), 4);
    assert_eq!(pointer(0, 0, 0, 0x51).shift(), 0);
    assert_eq!(pointer(0, 0, 0, 0xD2).content_kind(), 0xD);
    assert_eq!(pointer(0, 0, 0, 0x1_45).content_kind(), 4);
}

#[test]
fn header_is_found_through_the_offset_field() {
    let mut chunk = vec![0u8; 64];
    put_u32(&mut chunk, 0, 24);
    put_u32(&mut chunk, 20, 7);
    put_u32(&mut chunk, 24, 3);
    let mut stream = VSDInternalStream::new(&chunk, 64, false);
    assert_eq!(
        read_pointer_info(&mut stream, 0),
        Ok(DirectoryHeader { list_size: 7, pointer_count: 3 })
    );
    assert_eq!(stream.tell(), 32);
    let header = DirectoryHeader { list_size: 7, pointer_count: 3 };
    assert_eq!(header.order_len(), 7);
    assert_eq!(DirectoryHeader { list_size: 1, pointer_count: 3 }.order_len(), 0);
    assert_eq!(DirectoryHeader { list_size: 0, pointer_count: 3 }.order_len(), 0);
    assert_eq!(DirectoryHeader { list_size: 2, pointer_count: 3 }.order_len(), 2);
}

#[test]
fn header_with_shift_of_four() {
    let mut chunk = vec![0u8; 64];
    put_u32(&mut chunk, 0, 0xDEAD);
    put_u32(&mut chunk, 4, 40);
    put_u32(&mut chunk, 40, 2);
    put_u32(&mut chunk, 44, 5);
    let mut stream = VSDInternalStream::new(&chunk, 64, false);
    assert_eq!(
        read_pointer_info(&mut stream, 4),
        Ok(DirectoryHeader { list_size: 2, pointer_count: 5 })
    );
    assert_eq!(stream.tell(), 52);
}

#[test]
fn header_errors() {
    let short = vec![1u8, 0, 0];
    let mut stream = VSDInternalStream::new(&short, 3, false);
    assert_eq!(read_pointer_info(&mut stream, 0), Err(ParseError::Io));
    assert_eq!(stream.tell(), 3);

    let mut before_start = vec![0u8; 16];
    put_u32(&mut before_start, 0, 3);
    let mut stream = VSDInternalStream::new(&before_start, 16, false);
    assert_eq!(read_pointer_info(&mut stream, 0), Err(ParseError::Seek));
    assert_eq!(stream.tell(), 4);

    let mut beyond = vec![0u8; 16];
    put_u32(&mut beyond, 0, 14);
    let mut stream = VSDInternalStream::new(&beyond, 16, false);
    assert_eq!(read_pointer_info(&mut stream, 0), Err(ParseError::Io));
    assert_eq!(stream.tell(), 16);

    let mut far = vec![0u8; 16];
    put_u32(&mut far, 4, 0xFFFF_FFFF);
    let mut stream = VSDInternalStream::new(&far, 16, false);
    assert_eq!(read_pointer_info(&mut stream, 4), Err(ParseError::Io));
}

#[test]
fn pointer_table_must_fit_the_chunk() {
    let mut chunk = vec![0u8; 45];
    put_pointer(&mut chunk, 20, pointer(0x15, 1, 2, 3));
    let table = read_pointers(&chunk, 2).unwrap();
    assert_eq!(table, vec![pointer(0, 0, 0, 0), pointer(0x15, 1, 2, 3)]);
    assert_eq!(read_pointers(&chunk, 3), Err(ParseError::Io));
    assert_eq!(read_pointers(&chunk, u32::MAX), Err(ParseError::Io));
    assert_eq!(read_pointers(&chunk, 0), Ok(vec![]));
}

#[test]
fn truncated_pointer_table_fails_the_document() {
    let (mut doc, _) = one_page();
    put_u32(&mut doc, 0x100 + 21, 3);
    let mut parser = VSDParser::new(doc);
    assert_eq!(parser.parse_passes(), Err(ParseError::Io));
    assert!(parser.content_pass().is_empty());
    assert!(parser.styles_pass().is_empty());
}

#[test]
fn document_without_trailer_pointer_fails() {
    let mut parser = VSDParser::new(vec![0u8; 0x24 + 19]);
    assert!(!parser.parse_main());
    assert_eq!(parser.parse_passes(), Err(ParseError::Io));
    let mut empty = VSDParser::new(vec![]);
    assert!(!empty.parse_main());
}

#[test]
fn header_before_the_chunk_fails_the_document() {
    let mut doc = document(0x200, 40);
    put_u32(&mut doc, 0x100, 2);
    let mut parser = VSDParser::new(doc);
    assert_eq!(parser.parse_passes(), Err(ParseError::Seek));
    assert!(!parser.parse_main());
}

#[test]
fn categories_open_and_close() {
    let mut doc = document(0x600, 900);
    let types: [u32; 5] = [0x0315, 0x1d, 0x1e, 0x0d, 0x16];
    let formats: [u32; 5] = [0x40, 0x80, 0x30, 0xD0, 0x50];
    let mut expected_pointers = vec![];
    for i in 0..5 {
        let p = pointer(types[i], 0x500 + i as u32, 8, formats[i]);
        put_pointer(&mut doc, 0x100 + 20 * i, p);
        expected_pointers.push(p);
    }
    put_u32(&mut doc, 0x100 + 0x311, 0);
    put_u32(&mut doc, 0x100 + 0x315, 5);
    let mut parser = VSDParser::new(doc);
    assert!(parser.parse_main());
    let expected = vec![
        Notification::Visit { index: 0, level: 1, pointer: expected_pointers[0] },
        Notification::StartPage { id: 0 },
        Notification::Blob { index: 0 },
        Notification::EndPage,
        Notification::Visit { index: 1, level: 1, pointer: expected_pointers[1] },
        Notification::StartStencils,
        Notification::Records { index: 1 },
        Notification::EndStencils,
        Notification::Visit { index: 2, level: 1, pointer: expected_pointers[2] },
        Notification::StartStencilPage { id: 2 },
        Notification::RegisterStencil { id: 2 },
        Notification::Visit { index: 3, level: 1, pointer: expected_pointers[3] },
        Notification::OleList { id: 3 },
        Notification::Records { index: 3 },
        // a chunk of colours is a blob but never a directory
        Notification::Visit { index: 4, level: 1, pointer: expected_pointers[4] },
        Notification::Blob { index: 4 },
    ];
    assert_eq!(parser.content_pass(), &expected);
}

/// A directory whose single pointer leads back to the directory itself.
fn self_reference() -> (Vec<u8>, Pointer) {
    let mut doc = document(0x300, 400);
    let back = pointer(0x0146, 0x100, 400, 0x50);
    put_pointer(&mut doc, 0x100, back);
    put_u32(&mut doc, 0x100 + 0x146, 1);
    (doc, back)
}

#[test]
fn open_directory_is_not_expanded_again() {
    let (doc, back) = self_reference();
    let mut parser = VSDParser::new(doc);
    assert!(parser.parse_main());
    let expected = vec![
        Notification::Visit { index: 0, level: 1, pointer: back },
        Notification::Blob { index: 0 },
        Notification::EnterDirectory { offset: 0x100 },
        Notification::Visit { index: 0, level: 3, pointer: back },
        Notification::Blob { index: 0 },
        Notification::LeaveDirectory { offset: 0x100 },
    ];
    assert_eq!(parser.content_pass(), &expected);
}

#[test]
fn visit_of_an_open_offset_leaves_the_guard_alone() {
    let (doc, back) = self_reference();
    let parser = VSDParser::new(doc);
    let mut visited: HashSet<u32> = HashSet::new();
    visited.insert(0x100);
    visited.insert(0x77);
    let trace = parser.handle_stream(back, 4, 9, &mut visited).unwrap();
    assert_eq!(
        trace,
        vec![Notification::Visit { index: 4, level: 9, pointer: back }, Notification::Blob {
            index: 4
        }]
    );
    let mut expected: HashSet<u32> = HashSet::new();
    expected.insert(0x100);
    expected.insert(0x77);
    assert_eq!(visited, expected);
}

#[test]
fn guard_is_restored_after_success_and_after_failure() {
    let (doc, back) = self_reference();
    let parser = VSDParser::new(doc);
    let mut visited: HashSet<u32> = HashSet::new();
    visited.insert(0x77);
    assert!(parser.handle_stream(back, 0, 1, &mut visited).is_ok());
    assert_eq!(visited.len(), 1);
    assert!(visited.contains(&0x77));

    // a directory whose chunk is too short for a header
    let broken = pointer(0x46, 0x2FE, 400, 0x50);
    assert_eq!(parser.handle_stream(broken, 0, 1, &mut visited), Err(ParseError::Io));
    assert_eq!(visited.len(), 1);
    assert!(visited.contains(&0x77));
}

#[test]
fn two_directories_that_point_at_each_other() {
    let mut doc = document(0x600, 400);
    let to_second = pointer(0x0146, 0x300, 400, 0x50);
    let to_first = pointer(0x0146, 0x100, 400, 0x50);
    put_pointer(&mut doc, 0x100, to_second);
    put_u32(&mut doc, 0x100 + 0x146, 1);
    put_pointer(&mut doc, 0x300, to_first);
    put_u32(&mut doc, 0x300 + 0x146, 1);
    let mut parser = VSDParser::new(doc);
    assert!(parser.parse_main());
    let expected = vec![
        Notification::Visit { index: 0, level: 1, pointer: to_second },
        Notification::Blob { index: 0 },
        Notification::EnterDirectory { offset: 0x300 },
        Notification::Visit { index: 0, level: 3, pointer: to_first },
        Notification::Blob { index: 0 },
        Notification::EnterDirectory { offset: 0x100 },
        Notification::Visit { index: 0, level: 5, pointer: to_second },
        Notification::Blob { index: 0 },
        Notification::LeaveDirectory { offset: 0x100 },
        Notification::LeaveDirectory { offset: 0x300 },
    ];
    assert_eq!(parser.content_pass(), &expected);
}

/// A chain of `count` directories of one page each, every page the next
/// directory.
fn chain(count: usize) -> Vec<u8> {
    let mut doc = document(0x100 + 40 * (count + 1), 40);
    for i in 0..count {
        let at = 0x100 + 40 * i;
        let format = if i + 1 < count { 0x50 } else { 0 };
        put_pointer(&mut doc, at, pointer(0x15, (at + 40) as u32, 40, format));
        put_u32(&mut doc, at + 21, 1);
        doc[at + 16] = format as u8;
    }
    doc
}

#[test]
fn nested_directories_are_followed() {
    let mut parser = VSDParser::new(chain(100));
    assert!(parser.parse_main());
    assert_eq!(visits(parser.content_pass()).len(), 100);
    let levels: Vec<u32> = parser
        .content_pass()
        .iter()
        .filter_map(|n| match n {
            Notification::Visit { level, .. } => Some(*level),
            _ => None,
        })
        .collect();
    assert_eq!(levels[0], 1);
    assert_eq!(levels[1], 3);
    assert_eq!(levels[99], 199);
}

#[test]
fn directories_nested_too_deeply_fail() {
    assert_eq!(MAX_LEVEL, 256);
    let mut deepest = VSDParser::new(chain(128));
    assert_eq!(deepest.parse_passes(), Ok(()));
    let mut parser = VSDParser::new(chain(130));
    assert_eq!(parser.parse_passes(), Err(ParseError::TooDeep));
    assert!(!parser.parse_main());
    assert!(parser.content_pass().is_empty());
}

#[test]
fn compressed_directory_is_expanded() {
    // decoded: the single pointer, whose reserved bytes place the header
    let mut inner = vec![0u8; 32];
    let leaf = pointer(0x1e, 0x3F0, 4, 0x80);
    put_pointer(&mut inner, 0, leaf);
    put_u32(&mut inner, 4, 24);
    put_u32(&mut inner, 24, 0);
    put_u32(&mut inner, 28, 1);
    let stored = encode_literals(&inner);

    let mut doc = document(0x400, 400);
    let to_inner = pointer(0x0146, 0x300, stored.len() as u32, 0x52);
    put_pointer(&mut doc, 0x100, to_inner);
    put_u32(&mut doc, 0x100 + 0x146, 1);
    doc[0x300..0x300 + stored.len()].copy_from_slice(&stored);

    let mut parser = VSDParser::new(doc);
    let chunk = parser.materialize(&to_inner);
    assert_eq!(chunk.as_slice(), &inner[..]);
    assert!(parser.parse_main());
    let expected = vec![
        Notification::Visit { index: 0, level: 1, pointer: to_inner },
        Notification::Blob { index: 0 },
        Notification::EnterDirectory { offset: 0x300 },
        Notification::Visit { index: 0, level: 3, pointer: leaf },
        Notification::StartStencilPage { id: 0 },
        Notification::Records { index: 0 },
        Notification::RegisterStencil { id: 0 },
        Notification::LeaveDirectory { offset: 0x300 },
    ];
    assert_eq!(parser.content_pass(), &expected);
}

#[test]
fn chunk_over_the_end_of_the_document_is_cut_off() {
    let doc: Vec<u8> = (0..100u8).collect();
    let parser = VSDParser::new(doc);
    assert_eq!(parser.data().len(), 100);
    let over = parser.materialize(&pointer(1, 90, 50, 0));
    assert_eq!(over.as_slice(), &[90, 91, 92, 93, 94, 95, 96, 97, 98, 99]);
    let huge = parser.materialize(&pointer(1, 98, u32::MAX, 0));
    assert_eq!(huge.as_slice(), &[98, 99]);
    let at_end = parser.materialize(&pointer(1, 100, 50, 0));
    assert_eq!(at_end.get_size(), 0);
    let beyond = parser.materialize(&pointer(1, u32::MAX, u32::MAX, 0));
    assert_eq!(beyond.get_size(), 0);
    let inside = parser.materialize(&pointer(1, 10, 3, 0));
    assert_eq!(inside.as_slice(), &[10, 11, 12]);
    let compressed_over = parser.materialize(&pointer(1, 97, 50, 2));
    // flag 97: a literal, then back-references that the input ends in
    assert_eq!(compressed_over.as_slice(), &[98]);
}

#[test]
fn parse_document_on_a_chunk() {
    let (doc, page) = one_page();
    let chunk = doc[0x100..0x128].to_vec();
    let parser = VSDParser::new(doc);
    let mut stream = VSDInternalStream::new(&chunk, 40, false);
    let trace = parser.parse_document(&mut stream, 0).unwrap();
    assert_eq!(trace.len(), 4);
    assert_eq!(trace[0], Notification::Visit { index: 0, level: 1, pointer: page });
    let mut empty = VSDInternalStream::new(&[], 0, false);
    assert_eq!(parser.parse_document(&mut empty, 0), Err(ParseError::Io));
    let mut visited: HashSet<u32> = HashSet::new();
    let mut again = VSDInternalStream::new(&chunk, 40, false);
    assert_eq!(
        parser.handle_streams(&mut again, 0, MAX_LEVEL, &mut visited),
        Err(ParseError::TooDeep)
    );
    assert!(visited.is_empty());
}

#[test]
fn document_signature_and_version() {
    let (doc, _) = one_page();
    let parser = parse_visio_document(&doc).unwrap();
    assert_eq!(parser.content_pass().len(), 4);
    assert_eq!(parser.styles_pass().len(), 4);

    let mut wrong_text = doc.clone();
    wrong_text[17] = b'G';
    assert_eq!(parse_visio_document(&wrong_text).unwrap_err(), ParseError::Signature);
    assert_eq!(parse_visio_document(&b"Visio".to_vec()).unwrap_err(), ParseError::Signature);
    assert_eq!(parse_visio_document(&vec![]).unwrap_err(), ParseError::Signature);

    let mut wrong_version = doc.clone();
    wrong_version[0x1A] = 6;
    assert_eq!(parse_visio_document(&wrong_version).unwrap_err(), ParseError::Version);
    assert_eq!(
        parse_visio_document(&b"Visio (TM) Drawing\r\n".to_vec()).unwrap_err(),
        ParseError::Version
    );

    let mut no_trailer = doc[..0x30].to_vec();
    no_trailer[0x1A] = 11;
    assert_eq!(parse_visio_document(&no_trailer).unwrap_err(), ParseError::Io);
}

#[test]
fn compound_file_magic() {
    assert!(is_compound_file(&[0xD0, 0xCF, 0x11, 0xE0, 0xA1, 0xB1, 0x1A, 0xE1]));
    assert!(is_compound_file(&[0xD0, 0xCF, 0x11, 0xE0]));
    assert!(!is_compound_file(&[0xD0, 0xCF, 0x11]));
    assert!(!is_compound_file(&[0xD0, 0xCF, 0x11, 0xE1, 0, 0, 0, 0]));
    assert!(!is_compound_file(&[]));
}

#[test]
fn parse_error_messages() {
    assert_eq!(ParseError::Signature.message(), "This is not vsd file");
    assert_eq!(ParseError::Version.message(), "Supported only version 11");
    assert_eq!(ParseError::Io.message(), "unexpected end of chunk");
    assert_eq!(ParseError::Seek.message(), "directory header before the start of its chunk");
    assert_eq!(ParseError::TooDeep.message(), "directories nested too deeply");
}

#[test]
fn coordinates_compare_by_value() {
    assert_eq!(Coordinate { x: 1, y: -2 }, Coordinate { x: 1, y: -2 });
    assert_ne!(Coordinate { x: 1, y: -2 }, Coordinate { x: 1, y: 2 });
}
