use rusty_visio_parser::parser_vsdx::dict::Dict;
use rusty_visio_parser::parser_vsdx::elements::Attribute;
use rusty_visio_parser::parser_vsdx::elements::Element;
use rusty_visio_parser::parser_vsdx::elements::Elements;
use rusty_visio_parser::parser_vsdx::get_metadata::encoding;
use rusty_visio_parser::parser_vsdx::get_metadata::encoding_of_part;
use rusty_visio_parser::parser_vsdx::get_metadata::XmlEvent;
use rusty_visio_parser::parser_vsdx::helpers::attrs_to_hashmap;
use rusty_visio_parser::parser_vsdx::helpers::get_masters_rel;
use rusty_visio_parser::parser_vsdx::read_vsdx::has_suffix;
use rusty_visio_parser::parser_vsdx::read_vsdx::is_masters_file;
use rusty_visio_parser::parser_vsdx::read_vsdx::is_part_file;
use rusty_visio_parser::parser_vsdx::read_vsdx::is_rels_file;
use rusty_visio_parser::parser_vsdx::read_vsdx::Diagram;
use rusty_visio_parser::parser_vsdx::read_vsdx::Page;
use rusty_visio_parser::parser_vsdx::read_vsdx::Rel;
use rusty_visio_parser::parser_vsdx::read_vsdx::Shape;

fn attr(name: &str, value: &str) -> Attribute {
    Attribute { name: name.to_string(), value: value.to_string() }
}

fn start(name: &str, attributes: Vec<Attribute>) -> XmlEvent {
    XmlEvent::StartElement { name: name.to_string(), attributes }
}

fn text(content: &str) -> XmlEvent {
    XmlEvent::Characters(content.to_string())
}

fn pairs(dict: &Dict<String>) -> Vec<(String, String)> {
    dict.entries().clone()
}

fn pair(key: &str, value: &str) -> (String, String) {
    (key.to_string(), value.to_string())
}

#[test]
fn dictionary_replaces_the_value_of_a_key() {
    let mut dict: Dict<String> = Dict::new();
    assert_eq!(dict.len(), 0);
    assert_eq!(dict.get("a"), None);
    assert!(!dict.contains_key("a"));
    dict.insert("a".to_string(), "1".to_string());
    dict.insert("b".to_string(), "2".to_string());
    dict.insert("a".to_string(), "3".to_string());
    assert_eq!(dict.len(), 2);
    assert_eq!(dict.get("a"), Some(&"3".to_string()));
    assert_eq!(dict.get("b"), Some(&"2".to_string()));
    assert_eq!(dict.get("c"), None);
    assert_eq!(dict.get(""), None);
    assert!(dict.contains_key("b"));
    assert_eq!(pairs(&dict), vec![pair("a", "3"), pair("b", "2")]);
}

#[test]
fn attributes_become_a_dictionary() {
    let attributes = vec![attr("ID", "4"), attr("Name", "Box"), attr("ID", "5")];
    let attrs = attrs_to_hashmap(&attributes);
    assert_eq!(pairs(&attrs), vec![pair("ID", "5"), pair("Name", "Box")]);
    assert_eq!(attrs_to_hashmap(&vec![]).len(), 0);
}

#[test]
fn names_of_relationship_parts() {
    assert!(is_rels_file("masters.xml.rels"));
    assert!(is_rels_file(".rels"));
    assert!(!is_rels_file("rels"));
    assert!(!is_rels_file("masters.xml"));
    assert!(!is_rels_file("masters.rels.xml"));
    assert!(!is_rels_file(""));
    assert!(!is_rels_file("x.Rels"));
    assert!(is_rels_file("\u{e9}t\u{e9}.rels"));
}

#[test]
fn elements_are_numbered_and_linked() {
    let events = vec![
        XmlEvent::Other,
        start("Masters", vec![attr("xmlns", "urn:x")]),
        start("Master", vec![attr("ID", "2")]),
        start("Cell", vec![attr("N", "Width"), attr("V", "1.5"), attr("U", "IN")]),
        XmlEvent::EndElement,
        start("Rel", vec![attr("id", "rId1")]),
        XmlEvent::EndElement,
        text("hello"),
        XmlEvent::EndElement,
        start("Master", vec![]),
        XmlEvent::EndElement,
        XmlEvent::EndElement,
        XmlEvent::Other,
    ];
    let mut diagram = Diagram::new();
    let table = encoding(&events, "masters.xml", &mut diagram);
    assert_eq!(diagram.rels.len(), 0);
    let items = table.as_vec();
    let ids: Vec<i64> = items.iter().map(|e| e.inner_id).collect();
    // the cell was counted as 3 but is no element of its own
    assert_eq!(ids, vec![1, 2, 4, 5, 6]);
    assert_eq!(table.len(), 5);

    let masters = table.get(1).unwrap();
    assert_eq!(masters.name, "Masters");
    assert_eq!(masters.parent, 0);
    assert_eq!(masters.children, vec![2, 6]);
    assert_eq!(pairs(&masters.attrs), vec![pair("xmlns", "urn:x")]);
    assert_eq!(masters.params.len(), 0);

    let master = table.get(2).unwrap();
    assert_eq!(master.name, "Master");
    assert_eq!(master.parent, 1);
    assert_eq!(master.children, vec![4]);
    assert_eq!(master.params.len(), 1);
    let width = master.params.get("Width").unwrap();
    assert_eq!(pairs(width), vec![pair("V", "1.5"), pair("U", "IN")]);

    let rel = table.get(4).unwrap();
    assert_eq!(rel.name, "Rel");
    assert_eq!(rel.parent, 2);
    assert!(rel.children.is_empty());

    let characters = table.get(5).unwrap();
    assert_eq!(characters.name, "Characters");
    assert_eq!(characters.parent, 2);
    assert_eq!(pairs(&characters.attrs), vec![pair("Text", "hello")]);

    let second = table.get(6).unwrap();
    assert_eq!(second.parent, 1);
    assert!(table.get(3).is_none());
    assert!(table.get(0).is_none());
    assert!(table.get(7).is_none());
    assert!(table.contains_key(6));
    assert!(!table.contains_key(3));
}

#[test]
fn cell_inside_a_cell_is_dropped() {
    let events = vec![
        start("Shape", vec![]),
        start("Cell", vec![attr("V", "1")]),
        start("Cell", vec![attr("N", "Inner"), attr("V", "2")]),
        start("RefBy", vec![]),
        XmlEvent::EndElement,
        XmlEvent::EndElement,
        XmlEvent::EndElement,
        start("Cell", vec![attr("N", "A"), attr("N", "B"), attr("V", "3")]),
        XmlEvent::EndElement,
        XmlEvent::EndElement,
        XmlEvent::EndElement,
        text("after"),
    ];
    let mut diagram = Diagram::new();
    let table = encoding(&events, "page1.xml", &mut diagram);
    let ids: Vec<i64> = table.as_vec().iter().map(|e| e.inner_id).collect();
    assert_eq!(ids, vec![1, 4, 6]);
    let shape = table.get(1).unwrap();
    // the first cell has no name; the last name of a cell counts
    assert_eq!(shape.params.len(), 2);
    assert_eq!(pairs(shape.params.get("").unwrap()), vec![pair("V", "1")]);
    assert_eq!(pairs(shape.params.get("B").unwrap()), vec![pair("V", "3")]);
    assert!(shape.children.is_empty());
    // the parent of element 4 is cell 3, which is in no table
    assert_eq!(table.get(4).unwrap().parent, 3);
    // every element was closed, one close was too many
    assert_eq!(table.get(6).unwrap().parent, 0);
}

#[test]
fn relationships_are_gathered_under_the_name_of_the_part() {
    let events = vec![
        start("Relationships", vec![]),
        start(
            "Relationship",
            vec![attr("Id", "rId1"), attr("Type", "t"), attr("Target", "master1.xml")],
        ),
        XmlEvent::EndElement,
        start("Relationship", vec![attr("Target", "master2.xml"), attr("Id", "rId2")]),
        XmlEvent::EndElement,
        start("Relationship", vec![attr("Id", "rId1"), attr("Target", "other.xml")]),
        XmlEvent::EndElement,
        start("Relationship", vec![]),
        text("note"),
        XmlEvent::EndElement,
        XmlEvent::EndElement,
    ];
    let mut diagram = Diagram::new();
    diagram.masters_rel.insert("9".to_string(), "rId9".to_string());
    let table = encoding(&events, "masters.xml.rels", &mut diagram);
    // in such a part only text is counted
    let ids: Vec<i64> = table.as_vec().iter().map(|e| e.inner_id).collect();
    assert_eq!(ids, vec![1]);
    assert_eq!(table.get(1).unwrap().name, "Characters");
    assert_eq!(table.get(1).unwrap().parent, 0);
    assert_eq!(diagram.rels.len(), 1);
    let targets = diagram.rels.get("masters.xml.rels").unwrap();
    assert_eq!(
        pairs(targets),
        vec![pair("rId1", "other.xml"), pair("rId2", "master2.xml"), pair("", "")]
    );
    assert_eq!(pairs(&diagram.masters_rel), vec![pair("9", "rId9")]);

    let again = encoding(&vec![], "masters.xml.rels", &mut diagram);
    assert_eq!(again.len(), 0);
    assert_eq!(diagram.rels.len(), 1);
    assert_eq!(diagram.rels.get("masters.xml.rels").unwrap().len(), 0);
}

#[test]
fn masters_note_their_relationships() {
    let events = vec![
        start("Masters", vec![]),
        start("Master", vec![attr("ID", "2")]),
        start("PageSheet", vec![]),
        XmlEvent::EndElement,
        start("Rel", vec![attr("id", "rId1")]),
        XmlEvent::EndElement,
        XmlEvent::EndElement,
        start("Master", vec![attr("ID", "5")]),
        start("Rel", vec![attr("id", "rId7")]),
        XmlEvent::EndElement,
        start("Rel", vec![attr("id", "rId8")]),
        XmlEvent::EndElement,
        XmlEvent::EndElement,
        start("Master", vec![]),
        XmlEvent::EndElement,
        start("Other", vec![]),
        start("Rel", vec![attr("id", "rId9")]),
        XmlEvent::EndElement,
        XmlEvent::EndElement,
        XmlEvent::EndElement,
    ];
    let mut diagram = Diagram::new();
    diagram.masters_rel.insert("5".to_string(), "old".to_string());
    diagram.masters_rel.insert("77".to_string(), "kept".to_string());
    let table = encoding(&events, "masters.xml", &mut diagram);
    get_masters_rel(&table, &mut diagram);
    assert_eq!(
        pairs(&diagram.masters_rel),
        vec![pair("5", "rId8"), pair("77", "kept"), pair("2", "rId1")]
    );
    assert_eq!(diagram.rels.len(), 0);
    assert!(diagram.pages.is_empty());
}

#[test]
fn table_of_elements_by_hand() {
    let mut table = Elements::new();
    let mut first = Element {
        inner_id: 3,
        name: "A".to_string(),
        attrs: Dict::new(),
        params: Dict::new(),
        children: vec![],
        parent: 0,
    };
    first.add_child(10);
    first.add_param("P".to_string(), Dict::new());
    table.push(first);
    table.push(Element {
        inner_id: 8,
        name: "B".to_string(),
        attrs: Dict::new(),
        params: Dict::new(),
        children: vec![],
        parent: 3,
    });
    table.add_child(3, 8);
    table.add_child(4, 9);
    let mut values: Dict<String> = Dict::new();
    values.insert("V".to_string(), "1".to_string());
    table.add_param(8, "Q".to_string(), values);
    table.add_param(9, "R".to_string(), Dict::new());
    assert_eq!(table.len(), 2);
    assert_eq!(table.get(3).unwrap().children, vec![10, 8]);
    assert_eq!(table.get(3).unwrap().params.len(), 1);
    assert_eq!(table.get(8).unwrap().params.get("Q").unwrap().get("V"), Some(&"1".to_string()));
    assert!(table.get(4).is_none());
    assert!(table.get(9).is_none());
}

#[test]
fn plain_parts_of_a_diagram() {
    let page = Page { shapes: vec![Shape {}, Shape {}] };
    assert_eq!(page.shapes.len(), 2);
    assert_eq!(page.shapes[0], Shape {});
    let rel = Rel { id: "rId1".to_string(), type_url: "t".to_string(), target: "x".to_string() };
    assert_eq!(rel.id, "rId1");
    assert_eq!(rel.type_url, "t");
    assert_eq!(rel.target, "x");
}

#[test]
fn names_of_parts() {
    assert!(is_part_file("page1.xml"));
    assert!(is_part_file("page1.xml.rels"));
    assert!(is_part_file(".xml"));
    assert!(!is_part_file("page1.rels"));
    assert!(!is_part_file("thumbnail.emf"));
    assert!(!is_part_file("xml"));
    assert!(!is_part_file(""));
    assert!(is_masters_file("masters.xml"));
    assert!(!is_masters_file("Masters.xml"));
    assert!(!is_masters_file("xmasters.xml"));
    assert!(!is_masters_file("masters.xml.rels"));
    assert!(!is_masters_file("master1.xml"));
    assert!(!is_masters_file(""));
    assert!(has_suffix("abc", ""));
    assert!(has_suffix("", ""));
    assert!(has_suffix("abc", "abc"));
    assert!(has_suffix("abc", "bc"));
    assert!(!has_suffix("abc", "ab"));
    assert!(!has_suffix("bc", "abc"));
    assert!(has_suffix("na\u{ef}ve", "\u{ef}ve"));
}

#[test]
fn part_is_read_from_its_text() {
    let xml = br#"<?xml version="1.0" encoding="utf-8"?>
<!-- the masters -->
<Masters xmlns="urn:m" xmlns:r="urn:r">
  <Master ID="2" NameU="Box">
    <PageSheet LineStyle="0"><Cell N="PageWidth" V="8.5" U="IN"/></PageSheet>
    <Rel r:id="rId1"/>
    <Text>caf&#233; &amp; <![CDATA[raw]]></Text>
  </Master>
</Masters>"#;
    let mut diagram = Diagram::new();
    let table = encoding_of_part(xml, "masters.xml", &mut diagram).unwrap();
    let names: Vec<(i64, String, i64)> =
        table.as_vec().iter().map(|e| (e.inner_id, e.name.clone(), e.parent)).collect();
    assert_eq!(
        names,
        vec![
            (1, "Masters".to_string(), 0),
            (2, "Master".to_string(), 1),
            (3, "PageSheet".to_string(), 2),
            (5, "Rel".to_string(), 2),
            (6, "Text".to_string(), 2),
            (7, "Characters".to_string(), 6),
        ]
    );
    let master = table.get(2).unwrap();
    assert_eq!(pairs(&master.attrs), vec![pair("ID", "2"), pair("NameU", "Box")]);
    assert_eq!(master.children, vec![3, 5, 6]);
    let sheet = table.get(3).unwrap();
    assert_eq!(pairs(sheet.params.get("PageWidth").unwrap()), vec![pair("V", "8.5"), pair("U", "IN")]);
    // the prefix of an attribute is dropped
    assert_eq!(pairs(&table.get(5).unwrap().attrs), vec![pair("id", "rId1")]);
    assert_eq!(pairs(&table.get(7).unwrap().attrs), vec![pair("Text", "caf\u{e9} & ")]);
    get_masters_rel(&table, &mut diagram);
    assert_eq!(pairs(&diagram.masters_rel), vec![pair("2", "rId1")]);
}

#[test]
fn part_with_an_error_is_read_up_to_the_error() {
    let xml = b"<a><b x='1'></c></a>";
    let mut diagram = Diagram::new();
    let table = encoding_of_part(xml, "broken.xml", &mut diagram).unwrap();
    let ids: Vec<i64> = table.as_vec().iter().map(|e| e.inner_id).collect();
    assert_eq!(ids, vec![1, 2]);
    assert_eq!(table.get(1).unwrap().children, vec![2]);
    let empty = encoding_of_part(b"", "empty.xml", &mut diagram).unwrap();
    assert_eq!(empty.len(), 0);
}

#[test]
fn relationships_are_read_from_their_text() {
    let xml = br#"<Relationships xmlns="urn:rels">
  <Relationship Id="rId1" Type="urn:master" Target="master1.xml"/>
  <Relationship Id="rId2" Type="urn:master" Target="master2.xml"/>
</Relationships>"#;
    let mut diagram = Diagram::new();
    let table = encoding_of_part(xml, "masters.xml.rels", &mut diagram).unwrap();
    assert_eq!(table.len(), 0);
    let targets = diagram.rels.get("masters.xml.rels").unwrap();
    assert_eq!(pairs(targets), vec![pair("rId1", "master1.xml"), pair("rId2", "master2.xml")]);
}
