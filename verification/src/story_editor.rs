//! Editing a story's name, description and type.
use vstd::prelude::*;
use crate::api::{Error, ShortcutApi, Story};

verus! {

/// The story types, in the order they are offered.
pub open spec fn story_types() -> Seq<Seq<char>> {
    seq!["feature"@, "bug"@, "chore"@]
}

/// The position of a story type in the offered order; unknown types take the
/// first position.
pub open spec fn story_type_index(t: Seq<char>) -> usize {
    if t == "bug"@ {
        1
    } else if t == "chore"@ {
        2
    } else {
        0
    }
}

/// Finds a story type's position in the offered order.
pub fn story_type_position(t: &str) -> (r: usize)
    ensures
        r == story_type_index(t@),
        r < 3,
{
    let s = String::from_str(t);
    proof {
        reveal_strlit("feature");
        reveal_strlit("bug");
        reveal_strlit("chore");
        assert("feature"@.len() == 7 && "bug"@.len() == 3 && "chore"@.len() == 5);
    }
    if s == String::from_str("feature") {
        0
    } else if s == String::from_str("bug") {
        1
    } else if s == String::from_str("chore") {
        2
    } else {
        0
    }
}

/// The story type offered at a position.
pub fn story_type_at(i: usize) -> (r: String)
    requires
        i < 3,
    ensures
        r@ == story_types()[i as int],
{
    if i == 0 {
        String::from_str("feature")
    } else if i == 1 {
        String::from_str("bug")
    } else {
        String::from_str("chore")
    }
}

/// The editable values of a story.
pub struct StoryEditor {
    pub story_id: i64,
    pub name: String,
    pub description: String,
    pub story_type: String,
}

/// What updating a story reports: the updated story, or the service's error
/// wrapped in "Failed to update story".
pub fn update_result(reply: Result<Story, Error>) -> (r: Result<Story, Error>)
    ensures
        match reply {
            Ok(s) => r matches Ok(t) && t@ == s@,
            Err(e) => r matches Err(f) && f.message@ == "Failed to update story"@ && f.causes@ == seq![e.message] + e.causes@,
        },
{
    match reply {
        Ok(s) => Ok(s),
        Err(e) => Err(e.context("Failed to update story")),
    }
}

impl StoryEditor {
    /// An editor holding an existing story's values.
    pub fn from_story(story: &Story) -> (r: StoryEditor)
        ensures
            r.story_id == story.id,
            r.name == story.name,
            r.description == story.description,
            r.story_type == story.story_type,
    {
        StoryEditor {
            story_id: story.id,
            name: story.name.clone(),
            description: story.description.clone(),
            story_type: story.story_type.clone(),
        }
    }

    /// Takes the values entered at the prompts. When none differs from the
    /// held ones nothing changes and `false` is returned; otherwise all three
    /// are taken and `true` is returned.
    pub fn apply_edits(&mut self, new_name: String, new_description: String, new_story_type: String) -> (changed: bool)
        ensures
            changed == (new_name@ != old(self).name@ || new_description@ != old(self).description@
                || new_story_type@ != old(self).story_type@),
            changed ==> final(self).story_id == old(self).story_id && final(self).name == new_name
                && final(self).description == new_description && final(self).story_type == new_story_type,
            !changed ==> *final(self) == *old(self),
    {
        let changed = new_name != self.name || new_description != self.description || new_story_type
            != self.story_type;
        if changed {
            self.name = new_name;
            self.description = new_description;
            self.story_type = new_story_type;
        }
        changed
    }

    /// What is sent to the service to update the story: its id, the name,
    /// the description and the type held here, and no epic.
    pub fn update_request(&self) -> (r: (i64, String, String, String, Option<i64>))
        ensures
            r == (self.story_id, self.name, self.description, self.story_type, None::<i64>),
    {
        (self.story_id, self.name.clone(), self.description.clone(), self.story_type.clone(), None)
    }

    /// Sends `update_request` to the service and reports the reply as
    /// `update_result` does.
    pub fn update<T: ShortcutApi>(&self, client: &T) -> (r: Result<Story, Error>)
        ensures
            r matches Err(f) ==> f.message@ == "Failed to update story"@,
    {
        let (story_id, name, description, story_type, epic_id) = self.update_request();
        let reply = client.update_story_details(story_id, name, description, story_type, epic_id);
        update_result(reply)
    }
}

} // verus!
