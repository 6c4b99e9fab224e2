//! The elements of an XML part and the table that holds them by number.

use super::dict::Dict;
use vstd::prelude::*;

verus! {

/// One attribute of an XML element: its local name and its value.
#[derive(Debug)]
pub struct Attribute {
    pub name: String,
    pub value: String,
}

impl View for Attribute {
    type V = (Seq<char>, Seq<char>);

    /// Name and value.
    open spec fn view(&self) -> (Seq<char>, Seq<char>) {
        (self.name@, self.value@)
    }
}

/// The names and values of `attributes`.
pub open spec fn attribute_views(attributes: Seq<Attribute>) -> Seq<(Seq<char>, Seq<char>)> {
    attributes.map_values(|attribute: Attribute| attribute@)
}

/// An element, as specifications see it.
pub struct ElementView {
    pub inner_id: i64,
    pub name: Seq<char>,
    pub attrs: Map<Seq<char>, Seq<char>>,
    pub params: Map<Seq<char>, Map<Seq<char>, Seq<char>>>,
    pub children: Seq<i64>,
    pub parent: i64,
}

/// One element of a part, or one run of text in it.
#[derive(Debug)]
pub struct Element {
    /// Its number: elements and texts are counted from one as they are met.
    pub inner_id: i64,
    /// Its local name, or `Characters` for text.
    pub name: String,
    /// Its attributes.
    pub attrs: Dict<String>,
    /// Its cells: for every name the attributes of the cell so named.
    pub params: Dict<Dict<String>>,
    /// The numbers of the elements directly inside it, but for cells.
    pub children: Vec<i64>,
    /// The number of the element around it, zero for none.
    pub parent: i64,
}

impl View for Element {
    type V = ElementView;

    open spec fn view(&self) -> ElementView {
        ElementView {
            inner_id: self.inner_id,
            name: self.name@,
            attrs: self.attrs@,
            params: self.params@,
            children: self.children@,
            parent: self.parent,
        }
    }
}

/// `element` with one more child.
pub open spec fn with_child(element: ElementView, child: i64) -> ElementView {
    ElementView { children: element.children.push(child), ..element }
}

/// `element` with the cell `name` set to `values`.
pub open spec fn with_param(
    element: ElementView,
    name: Seq<char>,
    values: Map<Seq<char>, Seq<char>>,
) -> ElementView {
    ElementView { params: element.params.insert(name, values), ..element }
}

impl Element {
    /// Notes one more child.
    pub fn add_child(&mut self, elem_id: i64)
        ensures
            final(self)@ == with_child(old(self)@, elem_id),
    {
        self.children.push(elem_id);
    }

    /// Sets the cell `name` to `values`.
    pub fn add_param(&mut self, name: String, values: Dict<String>)
        ensures
            final(self)@ == with_param(old(self)@, name@, values@),
    {
        self.params.insert(name, values);
    }
}

/// The map that the first `n` of `items` stand for.
pub open spec fn to_elements(items: Seq<Element>, n: nat) -> Map<i64, ElementView>
    decreases n,
{
    if n == 0 {
        Map::empty()
    } else {
        to_elements(items, (n - 1) as nat).insert(items[n - 1].inner_id, items[n - 1]@)
    }
}

/// Whether the numbers of `items` rise strictly.
pub open spec fn rising(items: Seq<Element>) -> bool {
    forall|i: int, j: int|
        0 <= i < j < items.len() ==> (#[trigger] items[i]).inner_id < (#[trigger] items[j]).inner_id
}

/// The elements of a part by their numbers.  It keeps them in rising
/// order of their numbers, so that it is walked in the same order every
/// time.
#[derive(Debug)]
pub struct Elements {
    items: Vec<Element>,
}

impl View for Elements {
    type V = Map<i64, ElementView>;

    closed spec fn view(&self) -> Map<i64, ElementView> {
        to_elements(self.items@, self.items@.len())
    }
}

proof fn lemma_numbers(items: Seq<Element>, n: nat, id: i64)
    requires
        n <= items.len(),
    ensures
        to_elements(items, n).contains_key(id) <==> exists|i: int|
            0 <= i < n && (#[trigger] items[i]).inner_id == id,
    decreases n,
{
    if n > 0 {
        lemma_numbers(items, (n - 1) as nat, id);
        if items[n - 1].inner_id == id {
            assert(0 <= n - 1 < n && items[n - 1].inner_id == id);
        }
    }
}

proof fn lemma_element(items: Seq<Element>, n: nat, at: int)
    requires
        n <= items.len(),
        0 <= at < n,
        rising(items),
    ensures
        to_elements(items, n).contains_key(items[at].inner_id),
        to_elements(items, n)[items[at].inner_id] == items[at]@,
    decreases n,
{
    if at < n - 1 {
        lemma_element(items, (n - 1) as nat, at);
        assert(items[at].inner_id < items[n - 1].inner_id);
    }
}

proof fn lemma_changed(items: Seq<Element>, after: Seq<Element>, n: nat, at: int)
    requires
        n <= items.len(),
        after.len() == items.len(),
        0 <= at < items.len(),
        rising(items),
        after[at].inner_id == items[at].inner_id,
        forall|i: int| 0 <= i < items.len() && i != at ==> after[i] == items[i],
    ensures
        rising(after),
        to_elements(after, n) == if at < n {
            to_elements(items, n).insert(after[at].inner_id, after[at]@)
        } else {
            to_elements(items, n)
        },
    decreases n,
{
    assert(rising(after)) by {
        assert forall|i: int, j: int| 0 <= i < j < after.len() implies (#[trigger] after[i]).inner_id
            < (#[trigger] after[j]).inner_id by {
            assert(items[i].inner_id < items[j].inner_id);
        }
    }
    if n > 0 {
        lemma_changed(items, after, (n - 1) as nat, at);
        let last = n - 1;
        if at == last {
            assert(to_elements(after, n) =~= to_elements(items, n).insert(
                after[at].inner_id,
                after[at]@,
            ));
        } else if at < last {
            assert(items[at].inner_id < items[last].inner_id);
            assert(to_elements(after, n) =~= to_elements(items, n).insert(
                after[at].inner_id,
                after[at]@,
            ));
        }
    }
}

proof fn lemma_same_start(short: Seq<Element>, long: Seq<Element>, n: nat)
    requires
        n <= short.len() <= long.len(),
        forall|i: int| 0 <= i < short.len() ==> short[i] == long[i],
    ensures
        to_elements(long, n) == to_elements(short, n),
    decreases n,
{
    if n > 0 {
        lemma_same_start(short, long, (n - 1) as nat);
    }
}

impl Elements {
    #[verifier::type_invariant]
    spec fn numbers_rise(self) -> bool {
        rising(self.items@)
    }

    /// The numbers of the elements, in rising order.
    pub closed spec fn ids(&self) -> Seq<i64> {
        self.items@.map_values(|item: Element| item.inner_id)
    }

    /// Whether every number in the table is below `id`.
    pub open spec fn below(&self, id: i64) -> bool {
        forall|k: i64| self@.contains_key(k) ==> k < id
    }

    /// The elements in the order of the table, for specifications.
    pub closed spec fn items(&self) -> Seq<Element> {
        self.items@
    }

    /// An empty table.
    pub fn new() -> (table: Self)
        ensures
            table@ == Map::<i64, ElementView>::empty(),
            table.ids() == Seq::<i64>::empty(),
    {
        let table = Elements { items: Vec::new() };
        assert(table.ids() =~= Seq::<i64>::empty());
        table
    }

    /// Where the element with the number `id` stands.
    fn find(&self, id: i64) -> (at: Option<usize>)
        ensures
            match at {
                Some(i) => i < self.items@.len() && self.items@[i as int].inner_id == id
                    && self@.contains_key(id) && self@[id] == self.items@[i as int]@,
                None => !self@.contains_key(id),
            },
    {
        proof {
            use_type_invariant(self);
            lemma_numbers(self.items@, self.items@.len(), id);
        }
        let mut i: usize = 0;
        while i < self.items.len()
            invariant
                i <= self.items.len(),
                rising(self.items@),
                forall|j: int| 0 <= j < i ==> (#[trigger] self.items@[j]).inner_id != id,
            decreases self.items.len() - i,
        {
            if self.items[i].inner_id == id {
                proof {
                    lemma_element(self.items@, self.items@.len(), i as int);
                }
                return Some(i);
            }
            i += 1;
        }
        None
    }

    /// The element with the number `id`, if there is one.
    pub fn get(&self, id: i64) -> (element: Option<&Element>)
        ensures
            match element {
                Some(found) => self@.contains_key(id) && self@[id] == found@,
                None => !self@.contains_key(id),
            },
    {
        match self.find(id) {
            Some(at) => Some(&self.items[at]),
            None => None,
        }
    }

    /// Whether there is an element with the number `id`.
    pub fn contains_key(&self, id: i64) -> (found: bool)
        ensures
            found == self@.contains_key(id),
    {
        self.find(id).is_some()
    }

    /// Adds an element whose number is above all numbers in the table.
    pub fn push(&mut self, element: Element)
        requires
            old(self).below(element.inner_id),
        ensures
            final(self)@ == old(self)@.insert(element.inner_id, element@),
            final(self).ids() == old(self).ids().push(element.inner_id),
    {
        proof {
            use_type_invariant(&*self);
            assert forall|i: int| 0 <= i < self.items@.len() implies (#[trigger] self.items@[i]).inner_id
                < element.inner_id by {
                lemma_element(self.items@, self.items@.len(), i);
                assert(self@.contains_key(self.items@[i].inner_id));
            }
        }
        let mut items: Vec<Element> = Vec::new();
        std::mem::swap(&mut items, &mut self.items);
        items.push(element);
        proof {
            lemma_same_start(old(self).items@, items@, old(self).items@.len());
        }
        self.items = items;
        assert(self.ids() =~= old(self).ids().push(element.inner_id));
    }

    /// Notes `child` as a child of the element `parent`, if there is such
    /// an element.
    pub fn add_child(&mut self, parent: i64, child: i64)
        ensures
            final(self).ids() == old(self).ids(),
            final(self)@ == if old(self)@.contains_key(parent) {
                old(self)@.insert(parent, with_child(old(self)@[parent], child))
            } else {
                old(self)@
            },
    {
        proof {
            use_type_invariant(&*self);
        }
        match self.find(parent) {
            Some(at) => {
                let mut items: Vec<Element> = Vec::new();
                std::mem::swap(&mut items, &mut self.items);
                let mut element: Element = items.remove(at);
                element.add_child(child);
                items.insert(at, element);
                proof {
                    lemma_changed(old(self).items@, items@, items@.len(), at as int);
                }
                self.items = items;
                assert(self.ids() =~= old(self).ids());
            },
            None => {},
        }
    }

    /// Sets the cell `name` of the element `parent` to `values`, if there
    /// is such an element.
    pub fn add_param(&mut self, parent: i64, name: String, values: Dict<String>)
        ensures
            final(self).ids() == old(self).ids(),
            final(self)@ == if old(self)@.contains_key(parent) {
                old(self)@.insert(parent, with_param(old(self)@[parent], name@, values@))
            } else {
                old(self)@
            },
    {
        proof {
            use_type_invariant(&*self);
        }
        match self.find(parent) {
            Some(at) => {
                let mut items: Vec<Element> = Vec::new();
                std::mem::swap(&mut items, &mut self.items);
                let mut element: Element = items.remove(at);
                element.add_param(name, values);
                items.insert(at, element);
                proof {
                    lemma_changed(old(self).items@, items@, items@.len(), at as int);
                }
                self.items = items;
                assert(self.ids() =~= old(self).ids());
            },
            None => {},
        }
    }

    /// The elements, in rising order of their numbers: each of them is
    /// what the table holds under its number, and the table holds no
    /// other.
    pub fn as_vec(&self) -> (items: &Vec<Element>)
        ensures
            items@ == self.items(),
            items@.map_values(|item: Element| item.inner_id) == self.ids(),
            rising(items@),
            forall|i: int|
                0 <= i < items@.len() ==> self@.contains_key((#[trigger] items@[i]).inner_id)
                    && self@[items@[i].inner_id] == items@[i]@,
            forall|id: i64| self@.contains_key(id) ==> self.ids().contains(id),
    {
        proof {
            use_type_invariant(self);
            assert forall|i: int| 0 <= i < self.items@.len() implies self@.contains_key(
                (#[trigger] self.items@[i]).inner_id,
            ) && self@[self.items@[i].inner_id] == self.items@[i]@ by {
                lemma_element(self.items@, self.items@.len(), i);
            }
            assert forall|id: i64| self@.contains_key(id) implies self.ids().contains(id) by {
                lemma_numbers(self.items@, self.items@.len(), id);
                let i = choose|i: int| 0 <= i < self.items@.len() && (#[trigger] self.items@[i]).inner_id
                    == id;
                assert(self.ids()[i] == id);
            }
        }
        &self.items
    }

    /// Number of elements.
    pub fn len(&self) -> (n: usize)
        ensures
            n == self.ids().len(),
    {
        self.items.len()
    }
}

} // verus!
