//! The result of reading a metafile: a flat list of fields.

use vstd::prelude::*;

verus! {

/// One field, as specifications see it.
pub struct ItemView {
    pub name: Seq<char>,
    pub value: Seq<char>,
    pub offset: int,
    pub length: int,
    pub vtype: Seq<char>,
}

/// One field of a record.
#[derive(Debug, Clone)]
pub struct TreeItem {
    /// What the field is called.
    pub name: String,
    /// Its value, as text.
    pub value: String,
    /// Where it starts in the record.
    pub offset: usize,
    /// How many bytes it takes.
    pub length: usize,
    /// How its bytes are to be read.
    pub vtype: String,
}

impl View for TreeItem {
    type V = ItemView;

    open spec fn view(&self) -> ItemView {
        ItemView {
            name: self.name@,
            value: self.value@,
            offset: self.offset as int,
            length: self.length as int,
            vtype: self.vtype@,
        }
    }
}

/// The fields read so far, in the order in which they were read.
#[derive(Debug, Clone)]
pub struct TreeModel {
    items: Vec<TreeItem>,
}

impl View for TreeModel {
    type V = Seq<ItemView>;

    closed spec fn view(&self) -> Seq<ItemView> {
        self.items@.map_values(|item: TreeItem| item@)
    }
}

impl TreeModel {
    /// A model without fields.
    pub fn new() -> (model: Self)
        ensures
            model@ == Seq::<ItemView>::empty(),
    {
        let model = TreeModel { items: Vec::new() };
        assert(model@ =~= Seq::<ItemView>::empty());
        model
    }

    /// Adds one field at the end.
    pub fn add_item(&mut self, name: &str, value: String, offset: usize, length: usize, vtype: &str)
        ensures
            final(self)@ == old(self)@.push(
                ItemView {
                    name: name@,
                    value: value@,
                    offset: offset as int,
                    length: length as int,
                    vtype: vtype@,
                },
            ),
    {
        let item = TreeItem {
            name: name.to_owned(),
            value,
            offset,
            length,
            vtype: vtype.to_owned(),
        };
        self.items.push(item);
        assert(self@ =~= old(self)@.push(item@));
    }

    /// The fields.
    pub fn items(&self) -> (items: &Vec<TreeItem>)
        ensures
            items@.map_values(|item: TreeItem| item@) == self@,
    {
        &self.items
    }

    /// Number of fields.
    pub fn len(&self) -> (n: usize)
        ensures
            n == self@.len(),
    {
        self.items.len()
    }
}

} // verus!
