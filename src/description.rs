use vstd::prelude::*;

verus! {

/// Free text attached to a machine or a magazine slot.
pub struct Description {
    pub text: String,
}

impl Description {
    pub fn new(text: String) -> (r: Self)
        ensures
            r.text == text,
    {
        Self { text }
    }
}

impl Clone for Description {
    fn clone(&self) -> (r: Self)
        ensures
            r == *self,
    {
        Description { text: self.text.clone() }
    }
}

impl Default for Description {
    fn default() -> (r: Self)
        ensures
            r.text@ == Seq::<char>::empty(),
    {
        Description { text: String::new() }
    }
}

} // verus!
