//! The resources whose mutations the remote API defines.

use vstd::prelude::*;

verus! {

/// A resource that can be created, changed and deleted through the API.
#[derive(Clone, Copy, Debug, PartialEq, Eq, Structural)]
pub enum MutationResource {
    Projects,
    Notifications,
    Tags,
    ProjectStatuses,
    Issues,
    IssueAssignees,
    IssueFollowers,
    IssueTags,
    IssueRelationships,
    IssueComments,
    IssueCommentReactions,
}

/// The definition of one resource's mutations.
#[derive(Clone, Copy, Debug, PartialEq, Eq, Structural)]
pub struct MutationDefinition {
    pub resource: MutationResource,
}

impl MutationResource {
    /// The name of the module that serves the resource.
    pub open spec fn spec_name(self) -> Seq<char> {
        match self {
            MutationResource::Projects => "projects"@,
            MutationResource::Notifications => "notifications"@,
            MutationResource::Tags => "tags"@,
            MutationResource::ProjectStatuses => "project_statuses"@,
            MutationResource::Issues => "issues"@,
            MutationResource::IssueAssignees => "issue_assignees"@,
            MutationResource::IssueFollowers => "issue_followers"@,
            MutationResource::IssueTags => "issue_tags"@,
            MutationResource::IssueRelationships => "issue_relationships"@,
            MutationResource::IssueComments => "issue_comments"@,
            MutationResource::IssueCommentReactions => "issue_comment_reactions"@,
        }
    }

    /// The name of the module that serves the resource.
    pub fn name(self) -> (name: &'static str)
        ensures
            name@ == self.spec_name(),
    {
        match self {
            MutationResource::Projects => "projects",
            MutationResource::Notifications => "notifications",
            MutationResource::Tags => "tags",
            MutationResource::ProjectStatuses => "project_statuses",
            MutationResource::Issues => "issues",
            MutationResource::IssueAssignees => "issue_assignees",
            MutationResource::IssueFollowers => "issue_followers",
            MutationResource::IssueTags => "issue_tags",
            MutationResource::IssueRelationships => "issue_relationships",
            MutationResource::IssueComments => "issue_comments",
            MutationResource::IssueCommentReactions => "issue_comment_reactions",
        }
    }
}

/// The resources with mutations, in the order their definitions are
/// listed.
pub open spec fn mutation_resources() -> Seq<MutationResource> {
    seq![
        MutationResource::Projects,
        MutationResource::Notifications,
        MutationResource::Tags,
        MutationResource::ProjectStatuses,
        MutationResource::Issues,
        MutationResource::IssueAssignees,
        MutationResource::IssueFollowers,
        MutationResource::IssueTags,
        MutationResource::IssueRelationships,
        MutationResource::IssueComments,
        MutationResource::IssueCommentReactions,
    ]
}

/// All mutation definitions, one per resource, in listing order.
pub fn all_mutation_definitions() -> (definitions: Vec<MutationDefinition>)
    ensures
        definitions@ == mutation_resources().map_values(
            |resource: MutationResource| MutationDefinition { resource },
        ),
{
    let mut definitions: Vec<MutationDefinition> = Vec::new();
    definitions.push(MutationDefinition { resource: MutationResource::Projects });
    definitions.push(MutationDefinition { resource: MutationResource::Notifications });
    definitions.push(MutationDefinition { resource: MutationResource::Tags });
    definitions.push(MutationDefinition { resource: MutationResource::ProjectStatuses });
    definitions.push(MutationDefinition { resource: MutationResource::Issues });
    definitions.push(MutationDefinition { resource: MutationResource::IssueAssignees });
    definitions.push(MutationDefinition { resource: MutationResource::IssueFollowers });
    definitions.push(MutationDefinition { resource: MutationResource::IssueTags });
    definitions.push(MutationDefinition { resource: MutationResource::IssueRelationships });
    definitions.push(MutationDefinition { resource: MutationResource::IssueComments });
    definitions.push(MutationDefinition { resource: MutationResource::IssueCommentReactions });
    proof {
        assert(definitions@ =~= mutation_resources().map_values(
            |resource: MutationResource| MutationDefinition { resource },
        ));
    }
    definitions
}

} // verus!
