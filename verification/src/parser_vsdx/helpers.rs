//! Attributes as a dictionary, and the relationships of masters.

use super::dict::Dict;
use super::elements::attribute_views;
use super::elements::Attribute;
use super::elements::Element;
use super::elements::ElementView;
use super::elements::Elements;
use super::read_vsdx::Diagram;
use crate::text::decimal;
use crate::text::decimal_signed;
use vstd::prelude::*;
use vstd::string::StringExecFns;

verus! {

/// The dictionary of the first `n` attributes: the value of each name, the
/// last one where a name stands twice.
pub open spec fn attrs_map(attributes: Seq<(Seq<char>, Seq<char>)>, n: nat) -> Map<
    Seq<char>,
    Seq<char>,
>
    decreases n,
{
    if n == 0 {
        Map::empty()
    } else {
        attrs_map(attributes, (n - 1) as nat).insert(attributes[n - 1].0, attributes[n - 1].1)
    }
}

/// Makes a dictionary of a list of attributes.
pub fn attrs_to_hashmap(attributes: &Vec<Attribute>) -> (attrs: Dict<String>)
    ensures
        attrs@ == attrs_map(attribute_views(attributes@), attributes@.len()),
{
    let mut attrs: Dict<String> = Dict::new();
    let mut i: usize = 0;
    while i < attributes.len()
        invariant
            i <= attributes.len(),
            attrs@ == attrs_map(attribute_views(attributes@), i as nat),
        decreases attributes.len() - i,
    {
        attrs.insert(attributes[i].name.clone(), attributes[i].value.clone());
        i += 1;
    }
    attrs
}

/// Whether the element `id` of `table` is a master.
pub open spec fn is_master(table: Map<i64, ElementView>, id: i64) -> bool {
    table.contains_key(id) && table[id].name == "Master"@
}

/// Whether the element `id` of `table` is a relationship.
pub open spec fn is_rel(table: Map<i64, ElementView>, id: i64) -> bool {
    table.contains_key(id) && table[id].name == "Rel"@
}

/// Whether the masters of `table` can be read: every child of a master is
/// in the table, and every child that is a relationship has an `id`.
pub open spec fn masters_are_complete(table: Map<i64, ElementView>) -> bool {
    forall|id: i64, k: int|
        #![trigger table[id].children[k]]
        is_master(table, id) && 0 <= k < table[id].children.len() ==> {
            let child = table[id].children[k];
            table.contains_key(child) && (is_rel(table, child) ==> table[child].attrs.contains_key(
                "id"@,
            ))
        }
}

/// `found`, and after it what the first `n` of `children` say of the
/// element called `key`: every relationship among them puts its `id`
/// under `key`.
pub open spec fn rels_of(
    table: Map<i64, ElementView>,
    children: Seq<i64>,
    n: nat,
    key: Seq<char>,
    found: Map<Seq<char>, Seq<char>>,
) -> Map<Seq<char>, Seq<char>>
    decreases n,
{
    if n == 0 {
        found
    } else {
        let before = rels_of(table, children, (n - 1) as nat, key, found);
        let child = children[n - 1];
        if is_rel(table, child) {
            before.insert(key, table[child].attrs["id"@])
        } else {
            before
        }
    }
}

/// `found`, and after it what the first `n` of the elements `ids` say:
/// every master among them puts the relationships among its children
/// under its own number.
pub open spec fn masters_of(
    table: Map<i64, ElementView>,
    ids: Seq<i64>,
    n: nat,
    found: Map<Seq<char>, Seq<char>>,
) -> Map<Seq<char>, Seq<char>>
    decreases n,
{
    if n == 0 {
        found
    } else {
        let before = masters_of(table, ids, (n - 1) as nat, found);
        let id = ids[n - 1];
        if is_master(table, id) {
            rels_of(table, table[id].children, table[id].children.len(), decimal(id as int), before)
        } else {
            before
        }
    }
}

/// Notes for every master the relationship among its children, under the
/// master's number.
pub fn get_masters_rel(hash_elements: &Elements, diagram: &mut Diagram)
    requires
        masters_are_complete(hash_elements@),
    ensures
        final(diagram).masters_rel@ == masters_of(
            hash_elements@,
            hash_elements.ids(),
            hash_elements.ids().len(),
            old(diagram).masters_rel@,
        ),
        final(diagram).rels@ == old(diagram).rels@,
        final(diagram).pages@ == old(diagram).pages@,
{
    let items = hash_elements.as_vec();
    let master: String = String::from_str("Master");
    let rel: String = String::from_str("Rel");
    let ghost table = hash_elements@;
    let ghost ids = hash_elements.ids();
    let mut i: usize = 0;
    while i < items.len()
        invariant
            i <= items.len(),
            items@ == hash_elements.items(),
            ids == items@.map_values(|item: Element| item.inner_id),
            forall|j: int|
                0 <= j < items@.len() ==> table.contains_key((#[trigger] items@[j]).inner_id)
                    && table[items@[j].inner_id] == items@[j]@,
            ids == hash_elements.ids(),
            table == hash_elements@,
            master@ == "Master"@,
            rel@ == "Rel"@,
            masters_are_complete(table),
            diagram.masters_rel@ == masters_of(table, ids, i as nat, old(diagram).masters_rel@),
            diagram.rels@ == old(diagram).rels@,
            diagram.pages@ == old(diagram).pages@,
        decreases items.len() - i,
    {
        let el: &Element = &items[i];
        assert(ids[i as int] == el.inner_id);
        assert(table.contains_key(el.inner_id) && table[el.inner_id] == el@);
        if el.name == master {
            let key: String = decimal_signed(el.inner_id);
            let ghost before = diagram.masters_rel@;
            let mut k: usize = 0;
            while k < el.children.len()
                invariant
                    k <= el.children.len(),
                    table == hash_elements@,
                    is_master(table, el.inner_id),
                    table[el.inner_id] == el@,
                    rel@ == "Rel"@,
                    key@ == decimal(el.inner_id as int),
                    masters_are_complete(table),
                    diagram.masters_rel@ == rels_of(table, el.children@, k as nat, key@, before),
                    diagram.rels@ == old(diagram).rels@,
                    diagram.pages@ == old(diagram).pages@,
                decreases el.children.len() - k,
            {
                let attr_id: i64 = el.children[k];
                assert(attr_id == table[el.inner_id].children[k as int]);
                match hash_elements.get(attr_id) {
                    Some(child) => {
                        if child.name == rel {
                            match child.attrs.get("id") {
                                Some(rel_id) => {
                                    diagram.masters_rel.insert(key.clone(), rel_id.clone());
                                },
                                None => {
                                    assert(false);
                                },
                            }
                        }
                    },
                    None => {
                        assert(false);
                    },
                }
                k += 1;
            }
        }
        i += 1;
    }
}

} // verus!
