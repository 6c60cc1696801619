use vstd::prelude::*;
use crate::custom_traits::GetName;
use crate::description::Description;
use crate::holders::Holder;
use crate::text::{decimal, usize_to_string};
use crate::tools::Tool;

verus! {

/// One slot of a magazine: a label, the tool and the holder in it, a length
/// in micrometres, and a note.
pub type Content = (Option<String>, Option<Tool>, Option<Holder>, Option<u32>, Description);

/// A slot with nothing in it and the note "...".
pub open spec fn is_empty_slot(c: Content) -> bool {
    &&& c.0 is None
    &&& c.1 is None
    &&& c.2 is None
    &&& c.3 is None
    &&& c.4.text@ == "..."@
}

/// A tool magazine of a machine.
pub struct Magazine {
    pub name: String,
    pub index_in_machine: usize,
    pub content: Vec<Content>,
    pub capacity: usize,
}

/// A machine of the shop.
pub struct Machine {
    pub name: String,
    pub manufacturer: String,
    pub model: String,
    pub description: Description,
    /// How many magazines the machine is to get.
    pub magazine_count: usize,
    pub magazines: Vec<Magazine>,
}

impl Magazine {
    /// `m` is a magazine as `Magazine::new(index, capacity)` makes it.
    pub open spec fn is_new(m: Magazine, index: usize, capacity: usize) -> bool {
        &&& m.name@ == "Magazine "@ + decimal(index as nat + 1)
        &&& m.index_in_machine == index
        &&& m.capacity == capacity
        &&& m.content@.len() == capacity
        &&& forall|k: int| 0 <= k < capacity ==> is_empty_slot(#[trigger] m.content@[k])
    }

    /// The magazine at position `index_in_machine` of its machine, named
    /// after its position counted from one, with `capacity` empty slots.
    pub fn new(index_in_machine: usize, capacity: usize) -> (r: Self)
        requires
            index_in_machine < usize::MAX,
        ensures
            Magazine::is_new(r, index_in_machine, capacity),
    {
        let number = usize_to_string(index_in_machine + 1);
        let name = String::from_str("Magazine ").concat(number.as_str());
        let mut content: Vec<Content> = Vec::new();
        let mut index: usize = 0;
        while index < capacity
            invariant
                index <= capacity,
                content@.len() == index,
                forall|k: int| 0 <= k < index ==> is_empty_slot(#[trigger] content@[k]),
            decreases capacity - index,
        {
            content.push((None, None, None, None, Description::new(String::from_str("..."))));
            index += 1;
        }
        Self { name, index_in_machine, content, capacity }
    }
}

impl Magazine {
    /// No name, no slots, no capacity.
    pub open spec fn is_blank(self) -> bool {
        &&& self.name@ == Seq::<char>::empty()
        &&& self.index_in_machine == 0
        &&& self.content@.len() == 0
        &&& self.capacity == 0
    }
}

impl Default for Magazine {
    fn default() -> (r: Self)
        ensures
            r.is_blank(),
    {
        Magazine { name: String::new(), index_in_machine: 0, content: Vec::new(), capacity: 0 }
    }
}

impl Machine {
    pub fn new(name: String, manufacturer: String, model: String, description: Description) -> (r:
        Self)
        ensures
            r.name == name,
            r.manufacturer == manufacturer,
            r.model == model,
            r.description == description,
            r.magazine_count == 0,
            r.magazines@.len() == 0,
    {
        Self { name, manufacturer, model, description, magazine_count: 0, magazines: Vec::new() }
    }

    /// Appends `magazine_count` new magazines of `capacity` slots, numbered
    /// from position 0.
    pub fn add_magazines(&mut self, capacity: usize)
        ensures
            final(self).name == old(self).name,
            final(self).manufacturer == old(self).manufacturer,
            final(self).model == old(self).model,
            final(self).description == old(self).description,
            final(self).magazine_count == old(self).magazine_count,
            final(self).magazines@.len() == old(self).magazines@.len() + old(self).magazine_count,
            final(self).magazines@.subrange(0, old(self).magazines@.len() as int)
                == old(self).magazines@,
            forall|k: int|
                0 <= k < old(self).magazine_count ==> Magazine::is_new(
                    #[trigger] final(self).magazines@[old(self).magazines@.len() + k],
                    k as usize,
                    capacity,
                ),
    {
        let count = self.magazine_count;
        let mut index: usize = 0;
        while index < count
            invariant
                index <= count,
                count == old(self).magazine_count,
                self.name == old(self).name,
                self.manufacturer == old(self).manufacturer,
                self.model == old(self).model,
                self.description == old(self).description,
                self.magazine_count == old(self).magazine_count,
                self.magazines@.len() == old(self).magazines@.len() + index,
                self.magazines@.subrange(0, old(self).magazines@.len() as int)
                    == old(self).magazines@,
                forall|k: int|
                    0 <= k < index ==> Magazine::is_new(
                        #[trigger] self.magazines@[old(self).magazines@.len() + k],
                        k as usize,
                        capacity,
                    ),
            decreases count - index,
        {
            let m = Magazine::new(index, capacity);
            self.magazines.push(m);
            assert(self.magazines@.subrange(0, old(self).magazines@.len() as int)
                =~= old(self).magazines@);
            index += 1;
        }
    }
}

impl Machine {
    /// Empty texts and no magazines.
    pub open spec fn is_blank(self) -> bool {
        &&& self.name@ == Seq::<char>::empty()
        &&& self.manufacturer@ == Seq::<char>::empty()
        &&& self.model@ == Seq::<char>::empty()
        &&& self.description.text@ == Seq::<char>::empty()
        &&& self.magazine_count == 0
        &&& self.magazines@.len() == 0
    }
}

impl Default for Machine {
    fn default() -> (r: Self)
        ensures
            r.is_blank(),
    {
        Machine {
            name: String::new(),
            manufacturer: String::new(),
            model: String::new(),
            description: Description::default(),
            magazine_count: 0,
            magazines: Vec::new(),
        }
    }
}

impl GetName for Machine {
    fn get_name(&self) -> (r: String)
        ensures
            r@ == self.name@,
    {
        self.name.clone()
    }
}

} // verus!
