use vstd::prelude::*;

verus! {

/// A generated persona. `path` is where it is stored and is not part of its
/// JSON form.
pub struct Character {
    pub alias: String,
    pub bio: String,
    pub adjectives: Vec<String>,
    pub lore: Vec<String>,
    pub styles: Vec<String>,
    pub topics: Vec<String>,
    pub inspirations: Vec<String>,
    pub path: String,
}

impl Character {
    /// True when every persisted field is empty.
    pub open spec fn is_blank(&self) -> bool {
        &&& self.alias@.len() == 0
        &&& self.bio@.len() == 0
        &&& self.adjectives@.len() == 0
        &&& self.lore@.len() == 0
        &&& self.styles@.len() == 0
        &&& self.topics@.len() == 0
        &&& self.inspirations@.len() == 0
    }

    /// An empty character that will be stored at `path`.
    pub fn new(path: String) -> (r: Self)
        ensures
            r.is_blank(),
            r.path == path,
    {
        Character {
            alias: String::new(),
            bio: String::new(),
            adjectives: Vec::new(),
            lore: Vec::new(),
            styles: Vec::new(),
            topics: Vec::new(),
            inspirations: Vec::new(),
            path,
        }
    }
}

} // verus!
