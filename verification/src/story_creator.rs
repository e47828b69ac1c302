//! Creating a story from gathered values.
use vstd::prelude::*;
use crate::api::{Error, ShortcutApi, Story};

verus! {

/// The values of a story to create.
pub struct StoryCreator {
    pub name: String,
    pub description: String,
    pub story_type: String,
    pub requested_by_id: String,
    pub workflow_state_id: i64,
}

/// What creating a story reports: the created story, or the service's
/// error wrapped in "Failed to create story".
pub fn creation_result(reply: Result<Story, Error>) -> (r: Result<Story, Error>)
    ensures
        match reply {
            Ok(s) => r matches Ok(t) && t@ == s@,
            Err(e) => r matches Err(f) && f.message@ == "Failed to create story"@ && f.causes@ == seq![e.message] + e.causes@,
        },
{
    match reply {
        Ok(s) => Ok(s),
        Err(e) => Err(e.context("Failed to create story")),
    }
}

impl StoryCreator {
    /// A creator holding the given values.
    pub fn new(
        name: String,
        description: String,
        story_type: String,
        requested_by_id: String,
        workflow_state_id: i64,
    ) -> (r: StoryCreator)
        ensures
            r.name == name,
            r.description == description,
            r.story_type == story_type,
            r.requested_by_id == requested_by_id,
            r.workflow_state_id == workflow_state_id,
    {
        StoryCreator { name, description, story_type, requested_by_id, workflow_state_id }
    }

    /// What is sent to the service to create the story: the name, the
    /// description, the type, the requester and the workflow state held
    /// here, and no epic.
    pub fn creation_request(&self) -> (r: (String, String, String, String, i64, Option<i64>))
        ensures
            r == (self.name, self.description, self.story_type, self.requested_by_id, self.workflow_state_id, None::<i64>),
    {
        (
            self.name.clone(),
            self.description.clone(),
            self.story_type.clone(),
            self.requested_by_id.clone(),
            self.workflow_state_id,
            None,
        )
    }

    /// Sends `creation_request` to the service and reports the reply as
    /// `creation_result` does.
    pub fn create<T: ShortcutApi>(&self, client: &T) -> (r: Result<Story, Error>)
        ensures
            r matches Err(f) ==> f.message@ == "Failed to create story"@,
    {
        let (name, description, story_type, requested_by_id, workflow_state_id, epic_id) = self.creation_request();
        let reply = client.create_story(name, description, story_type, requested_by_id, workflow_state_id, epic_id);
        creation_result(reply)
    }
}

} // verus!
