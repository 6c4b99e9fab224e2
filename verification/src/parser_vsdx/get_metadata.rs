//! From the events of an XML part to its elements.

use super::dict::Dict;
use super::elements::attribute_views;
use super::elements::with_child;
use super::elements::with_param;
use super::elements::Attribute;
use super::elements::Element;
use super::elements::ElementView;
use super::elements::Elements;
use super::helpers::attrs_map;
use super::helpers::attrs_to_hashmap;
use super::read_vsdx::is_rels_file;
use super::read_vsdx::is_rels_name;
use super::read_vsdx::Diagram;
use vstd::prelude::*;
use vstd::string::StringExecFns;

verus! {

/// What a reader of XML meets in a part, as far as the elements depend on
/// it.
#[derive(Debug)]
pub enum XmlEvent {
    /// An element opens.
    StartElement { name: String, attributes: Vec<Attribute> },
    /// The element that opened last closes.
    EndElement,
    /// Text that is more than white space.
    Characters(String),
    /// Anything else: the start and end of the document, comments,
    /// instructions, white space.
    Other,
}

/// An event, as specifications see it.
pub enum EventView {
    StartElement { name: Seq<char>, attributes: Seq<(Seq<char>, Seq<char>)> },
    EndElement,
    Characters(Seq<char>),
    Other,
}

impl View for XmlEvent {
    type V = EventView;

    open spec fn view(&self) -> EventView {
        match *self {
            XmlEvent::StartElement { name, attributes } => EventView::StartElement {
                name: name@,
                attributes: attribute_views(attributes@),
            },
            XmlEvent::EndElement => EventView::EndElement,
            XmlEvent::Characters(text) => EventView::Characters(text@),
            XmlEvent::Other => EventView::Other,
        }
    }
}

/// The events as specifications see them.
pub open spec fn event_views(events: Seq<XmlEvent>) -> Seq<EventView> {
    events.map_values(|event: XmlEvent| event@)
}

/// A name for the events that `xml-rs` reads from the bytes of a part, up
/// to and without the first error.  Nothing is claimed of it, but that the
/// same bytes give the same events.
pub uninterp spec fn xml_events(bytes: Seq<u8>) -> Seq<EventView>;

/// How far the reading of a part has come.
pub struct Progress {
    /// The elements met so far, by their numbers.
    pub elements: Map<i64, ElementView>,
    /// How many elements and texts were counted.
    pub count: int,
    /// The numbers of the elements that are open, the innermost last.
    pub stack: Seq<i64>,
    /// In a part of relationships: the targets by their identifiers.
    pub targets: Map<Seq<char>, Seq<char>>,
}

/// The value of the last attribute called `key` among the first `n`, and
/// no text where there is none.
pub open spec fn last_value(attributes: Seq<(Seq<char>, Seq<char>)>, n: nat, key: Seq<char>) -> Seq<
    char,
>
    decreases n,
{
    if n == 0 {
        Seq::empty()
    } else if attributes[n - 1].0 == key {
        attributes[n - 1].1
    } else {
        last_value(attributes, (n - 1) as nat, key)
    }
}

/// The first `n` attributes of a cell as a dictionary, but for the name of
/// the cell.
pub open spec fn cell_values(attributes: Seq<(Seq<char>, Seq<char>)>, n: nat) -> Map<
    Seq<char>,
    Seq<char>,
>
    decreases n,
{
    if n == 0 {
        Map::empty()
    } else if attributes[n - 1].0 == "N"@ {
        cell_values(attributes, (n - 1) as nat)
    } else {
        cell_values(attributes, (n - 1) as nat).insert(attributes[n - 1].0, attributes[n - 1].1)
    }
}

/// The number of the innermost open element, zero where none is open.
pub open spec fn innermost(stack: Seq<i64>) -> i64 {
    if stack.len() == 0 {
        0
    } else {
        stack.last()
    }
}

/// The start of nothing.
pub open spec fn at_start() -> Progress {
    Progress { elements: Map::empty(), count: 0, stack: Seq::empty(), targets: Map::empty() }
}

/// What the opening of an element does in an ordinary part.  The element
/// is counted and opened.  A cell is no element of its own: it becomes a
/// cell of the element around it.  Any other element is added, and noted
/// as a child of the element around it.
pub open spec fn after_start(
    before: Progress,
    name: Seq<char>,
    attributes: Seq<(Seq<char>, Seq<char>)>,
) -> Progress {
    let id = (before.count + 1) as i64;
    let parent = innermost(before.stack);
    let element = ElementView {
        inner_id: id,
        name,
        attrs: attrs_map(attributes, attributes.len()),
        params: Map::empty(),
        children: Seq::empty(),
        parent,
    };
    let added = if name == "Cell"@ {
        before.elements
    } else {
        before.elements.insert(id, element)
    };
    let linked = if !added.contains_key(parent) {
        added
    } else if name == "Cell"@ {
        added.insert(
            parent,
            with_param(
                added[parent],
                last_value(attributes, attributes.len(), "N"@),
                cell_values(attributes, attributes.len()),
            ),
        )
    } else {
        added.insert(parent, with_child(added[parent], id))
    };
    Progress { elements: linked, count: before.count + 1, stack: before.stack.push(id), ..before }
}

/// What the opening of an element does in a part of relationships: a
/// relationship notes its target under its identifier, and nothing else
/// happens.
pub open spec fn after_relationship(
    before: Progress,
    name: Seq<char>,
    attributes: Seq<(Seq<char>, Seq<char>)>,
) -> Progress {
    if name == "Relationship"@ {
        Progress {
            targets: before.targets.insert(
                last_value(attributes, attributes.len(), "Id"@),
                last_value(attributes, attributes.len(), "Target"@),
            ),
            ..before
        }
    } else {
        before
    }
}

/// What a run of text does: it is counted and added as an element called
/// `Characters`, with the text as its one attribute.
pub open spec fn after_text(before: Progress, text: Seq<char>) -> Progress {
    let id = (before.count + 1) as i64;
    let element = ElementView {
        inner_id: id,
        name: "Characters"@,
        attrs: Map::<Seq<char>, Seq<char>>::empty().insert("Text"@, text),
        params: Map::empty(),
        children: Seq::empty(),
        parent: innermost(before.stack),
    };
    Progress { elements: before.elements.insert(id, element), count: before.count + 1, ..before }
}

/// What one event does.
pub open spec fn after_event(before: Progress, event: EventView, rels: bool) -> Progress {
    match event {
        EventView::StartElement { name, attributes } => if rels {
            after_relationship(before, name, attributes)
        } else {
            after_start(before, name, attributes)
        },
        EventView::EndElement => if before.stack.len() == 0 {
            before
        } else {
            Progress { stack: before.stack.drop_last(), ..before }
        },
        EventView::Characters(text) => after_text(before, text),
        EventView::Other => before,
    }
}

/// What the first `n` events do, one after the other.
pub open spec fn after_events(events: Seq<EventView>, n: nat, rels: bool) -> Progress
    decreases n,
{
    if n == 0 {
        at_start()
    } else {
        after_event(after_events(events, (n - 1) as nat, rels), events[n - 1], rels)
    }
}

/// The value of the last attribute called `key`.
fn last_value_of(attributes: &Vec<Attribute>, key: &String) -> (value: String)
    ensures
        value@ == last_value(attribute_views(attributes@), attributes@.len(), key@),
{
    let mut value: String = String::new();
    let mut i: usize = 0;
    while i < attributes.len()
        invariant
            i <= attributes.len(),
            value@ == last_value(attribute_views(attributes@), i as nat, key@),
        decreases attributes.len() - i,
    {
        if attributes[i].name == *key {
            value = attributes[i].value.clone();
        }
        i += 1;
    }
    value
}

/// The attributes of a cell as a dictionary, but for its name.
fn cell_values_of(attributes: &Vec<Attribute>) -> (values: Dict<String>)
    ensures
        values@ == cell_values(attribute_views(attributes@), attributes@.len()),
{
    let name: String = String::from_str("N");
    let mut values: Dict<String> = Dict::new();
    let mut i: usize = 0;
    while i < attributes.len()
        invariant
            i <= attributes.len(),
            name@ == "N"@,
            values@ == cell_values(attribute_views(attributes@), i as nat),
        decreases attributes.len() - i,
    {
        if !(attributes[i].name == name) {
            values.insert(attributes[i].name.clone(), attributes[i].value.clone());
        }
        i += 1;
    }
    values
}

/// Reads the events of one part into a table of elements.  In a part of
/// relationships, which its file name tells, the targets of the
/// relationships are gathered instead and put into the drawing under the
/// name of the part.
pub fn encoding(events: &Vec<XmlEvent>, fname: &str, diagram: &mut Diagram) -> (hash_elements:
    Elements)
    requires
        events.len() < i64::MAX,
    ensures
        hash_elements@ == after_events(
            event_views(events@),
            events@.len(),
            is_rels_name(fname@),
        ).elements,
        final(diagram).rels@ == if is_rels_name(fname@) {
            old(diagram).rels@.insert(
                fname@,
                after_events(event_views(events@), events@.len(), true).targets,
            )
        } else {
            old(diagram).rels@
        },
        final(diagram).masters_rel@ == old(diagram).masters_rel@,
        final(diagram).pages@ == old(diagram).pages@,
{
    let rels: bool = is_rels_file(fname);
    let cell: String = String::from_str("Cell");
    let relationship: String = String::from_str("Relationship");
    let id_key: String = String::from_str("Id");
    let target_key: String = String::from_str("Target");
    let name_key: String = String::from_str("N");
    let mut temp_hash: Dict<String> = Dict::new();
    let mut hash_elements: Elements = Elements::new();
    let mut number_count: i64 = 0;
    let mut stack_numbers: Vec<i64> = Vec::new();
    let mut i: usize = 0;
    while i < events.len()
        invariant
            i <= events.len() < i64::MAX,
            cell@ == "Cell"@,
            relationship@ == "Relationship"@,
            id_key@ == "Id"@,
            target_key@ == "Target"@,
            name_key@ == "N"@,
            0 <= number_count <= i,
            forall|k: i64| hash_elements@.contains_key(k) ==> 1 <= k <= number_count,
            hash_elements@ == after_events(event_views(events@), i as nat, rels).elements,
            number_count == after_events(event_views(events@), i as nat, rels).count,
            stack_numbers@ == after_events(event_views(events@), i as nat, rels).stack,
            temp_hash@ == after_events(event_views(events@), i as nat, rels).targets,
        decreases events.len() - i,
    {
        let ghost before = after_events(event_views(events@), i as nat, rels);
        match &events[i] {
            XmlEvent::StartElement { name, attributes } => {
                if rels {
                    if *name == relationship {
                        let param_name: String = last_value_of(attributes, &id_key);
                        let param_val: String = last_value_of(attributes, &target_key);
                        temp_hash.insert(param_name, param_val);
                    }
                } else {
                    number_count += 1;
                    let parent: i64 = if stack_numbers.len() == 0 {
                        0
                    } else {
                        stack_numbers[stack_numbers.len() - 1]
                    };
                    let is_cell: bool = *name == cell;
                    if !is_cell {
                        let element = Element {
                            inner_id: number_count,
                            name: name.clone(),
                            attrs: attrs_to_hashmap(attributes),
                            params: Dict::new(),
                            children: Vec::new(),
                            parent,
                        };
                        hash_elements.push(element);
                    }
                    if is_cell {
                        let param_name: String = last_value_of(attributes, &name_key);
                        let param_val: Dict<String> = cell_values_of(attributes);
                        hash_elements.add_param(parent, param_name, param_val);
                    } else {
                        hash_elements.add_child(parent, number_count);
                    }
                    stack_numbers.push(number_count);
                }
            },
            XmlEvent::EndElement => {
                let _ = stack_numbers.pop();
            },
            XmlEvent::Characters(text) => {
                number_count += 1;
                let parent: i64 = if stack_numbers.len() == 0 {
                    0
                } else {
                    stack_numbers[stack_numbers.len() - 1]
                };
                let mut attrs: Dict<String> = Dict::new();
                attrs.insert(String::from_str("Text"), text.clone());
                let element = Element {
                    inner_id: number_count,
                    name: String::from_str("Characters"),
                    attrs,
                    params: Dict::new(),
                    children: Vec::new(),
                    parent,
                };
                hash_elements.push(element);
            },
            XmlEvent::Other => {},
        }
        i += 1;
    }
    if rels {
        diagram.rels.insert(fname.to_owned(), temp_hash);
    }
    hash_elements
}

/// `xml::reader::EventReader`: the events of the XML text `bytes`, as its
/// iterator gives them, up to and without the first error.  Of an opening
/// element the local name and, of each attribute, local name and value
/// are kept; text is kept; the end of an element is noted; every other
/// event is noted as such.  The contract only names the result.
#[verifier::external_body]
pub(crate) fn read_events(bytes: &[u8]) -> (events: Vec<XmlEvent>)
    ensures
        event_views(events@) == xml_events(bytes@),
{
    let mut events = Vec::new();
    for event in xml::reader::EventReader::new(bytes) {
        match event {
            Ok(xml::reader::XmlEvent::StartElement { name, attributes, .. }) => {
                let attributes = attributes.into_iter().map(|a| Attribute { name: a.name.local_name, value: a.value });
                events.push(XmlEvent::StartElement { name: name.local_name, attributes: attributes.collect() })
            },
            Ok(xml::reader::XmlEvent::EndElement { .. }) => events.push(XmlEvent::EndElement),
            Ok(xml::reader::XmlEvent::Characters(text)) => events.push(XmlEvent::Characters(text)),
            Ok(_) => events.push(XmlEvent::Other),
            Err(_) => break,
        }
    }
    events
}

/// Most events that a part may have: their numbers must fit the numbers of
/// elements.
pub const MAX_EVENTS: usize = 0x7FFF_FFFF;

/// Reads the XML text of one part into a table of elements, as `encoding`
/// does with its events.  A part of more than `MAX_EVENTS` events is not
/// read: the result is `None` and the drawing stays as it is.
pub fn encoding_of_part(bytes: &[u8], fname: &str, diagram: &mut Diagram) -> (hash_elements: Option<
    Elements,
>)
    ensures
        xml_events(bytes@).len() > MAX_EVENTS ==> hash_elements.is_none() && *final(diagram)
            == *old(diagram),
        xml_events(bytes@).len() <= MAX_EVENTS ==> hash_elements.is_some()
            && hash_elements.unwrap()@ == after_events(
            xml_events(bytes@),
            xml_events(bytes@).len(),
            is_rels_name(fname@),
        ).elements && final(diagram).rels@ == (if is_rels_name(fname@) {
            old(diagram).rels@.insert(
                fname@,
                after_events(xml_events(bytes@), xml_events(bytes@).len(), true).targets,
            )
        } else {
            old(diagram).rels@
        }) && final(diagram).masters_rel@ == old(diagram).masters_rel@ && final(diagram).pages@
            == old(diagram).pages@,
{
    let events: Vec<XmlEvent> = read_events(bytes);
    if events.len() > MAX_EVENTS {
        None
    } else {
        Some(encoding(&events, fname, diagram))
    }
}

} // verus!
