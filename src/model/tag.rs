use vstd::prelude::*;

verus! {

/// What a tag labels.
#[derive(Debug, Clone, Copy, PartialEq, Eq, Structural)]
pub enum TagType {
    Game,
    Mod,
}

impl TagType {
    /// The type's code in the database.
    pub fn to_int2(&self) -> (r: i16)
        ensures
            r == (match *self {
                TagType::Game => 1i16,
                TagType::Mod => 2i16,
            }),
    {
        match self {
            TagType::Game => 1,
            TagType::Mod => 2,
        }
    }
}

#[derive(Debug)]
pub struct Tag {
    pub tag_id: i32,
    pub value: String,
}

#[derive(Debug)]
pub struct GetTagsPath {
    pub tag_type: TagType,
}

} // verus!
