//! The notification sent when a workspace's chain of executions ends.

use vstd::prelude::*;
use vstd::string::*;
use crate::model::{ExecutionContext, ExecutionProcessStatus};
use crate::text::{concat2, opt_text};

verus! {

/// A notification: a title and a body.
#[derive(Debug)]
pub struct Notification {
    pub title: String,
    pub message: String,
}

impl View for Notification {
    type V = (Seq<char>, Seq<char>);

    open spec fn view(&self) -> (Seq<char>, Seq<char>) {
        (self.title@, self.message@)
    }
}

/// The text that the standard library's `Debug` formatting gives for a
/// string: the string in double quotes, with its special characters
/// escaped.
pub uninterp spec fn debug_text_of(text: Seq<char>) -> Seq<char>;

/// The text that the standard library's `Debug` formatting gives for an
/// optional string.
pub uninterp spec fn debug_optional_text_of(text: Option<Seq<char>>) -> Seq<char>;

/// Formats a string with `{:?}` through `format!`. The contract names the
/// result: the formatting is a function of the characters alone. Nothing
/// else is claimed of it.
#[verifier::external_body]
fn debug_text(text: &str) -> (shown: String)
    ensures
        shown@ == debug_text_of(text@),
{
    format!("{:?}", text)
}

/// Formats an optional string with `{:?}` through `format!`. The contract
/// names the result: the formatting is a function of the value alone.
/// Nothing else is claimed of it.
#[verifier::external_body]
fn debug_optional_text(text: &Option<String>) -> (shown: String)
    ensures
        shown@ == debug_optional_text_of(opt_text(*text)),
{
    format!("{:?}", text)
}

/// The name a workspace is announced under: its own, or else its branch.
pub open spec fn display_name(name: Option<Seq<char>>, branch: Seq<char>) -> Seq<char> {
    match name {
        Some(n) => n,
        None => branch,
    }
}

/// The notification for a chain that ended with `status`, given the
/// workspace's display name and the formatted branch and executor. A
/// completed or failed process is announced; a killed one was stopped on
/// purpose and a running one has not ended, so neither is.
pub open spec fn notification_of(
    status: ExecutionProcessStatus,
    workspace_name: Seq<char>,
    branch_shown: Seq<char>,
    executor_shown: Seq<char>,
) -> Option<(Seq<char>, Seq<char>)> {
    match status {
        ExecutionProcessStatus::Completed => Some(
            (
                "Workspace Complete: "@ + workspace_name,
                "\u{2705} '"@ + workspace_name + "' completed successfully\nBranch: "@
                    + branch_shown + "\nExecutor: "@ + executor_shown,
            ),
        ),
        ExecutionProcessStatus::Failed => Some(
            (
                "Workspace Complete: "@ + workspace_name,
                "\u{274c} '"@ + workspace_name + "' execution failed\nBranch: "@ + branch_shown
                    + "\nExecutor: "@ + executor_shown,
            ),
        ),
        _ => None,
    }
}

/// The model of an optional notification.
pub open spec fn notification_view(notification: Option<Notification>) -> Option<
    (Seq<char>, Seq<char>),
> {
    match notification {
        Some(n) => Some(n@),
        None => None,
    }
}

/// Builds the notification for a chain that ended with `status`, from the
/// workspace's display name and the formatted branch and executor.
pub fn completion_notification(
    status: ExecutionProcessStatus,
    workspace_name: &str,
    branch_shown: &str,
    executor_shown: &str,
) -> (notification: Option<Notification>)
    ensures
        notification_view(notification) == notification_of(
            status,
            workspace_name@,
            branch_shown@,
            executor_shown@,
        ),
{
    let (opening, verdict) = match status {
        ExecutionProcessStatus::Completed => ("\u{2705} '", "' completed successfully\nBranch: "),
        ExecutionProcessStatus::Failed => ("\u{274c} '", "' execution failed\nBranch: "),
        _ => { return None; },
    };
    let title = concat2("Workspace Complete: ", workspace_name);
    let mut message = concat2(opening, workspace_name);
    message.append(verdict);
    message.append(branch_shown);
    message.append("\nExecutor: ");
    message.append(executor_shown);
    Some(Notification { title, message })
}

/// The notification that finalizing the process of `ctx` sends, if any:
/// exactly one for a completed or a failed process, none otherwise.
pub fn finalize_task(ctx: &ExecutionContext) -> (notification: Option<Notification>)
    ensures
        notification_view(notification) == notification_of(
            ctx.execution_process.status,
            display_name(opt_text(ctx.workspace.name), ctx.workspace.branch@),
            debug_text_of(ctx.workspace.branch@),
            debug_optional_text_of(opt_text(ctx.session.executor)),
        ),
{
    let branch_shown = debug_text(ctx.workspace.branch.as_str());
    let executor_shown = debug_optional_text(&ctx.session.executor);
    let name = match &ctx.workspace.name {
        Some(name) => name.as_str(),
        None => ctx.workspace.branch.as_str(),
    };
    completion_notification(
        ctx.execution_process.status,
        name,
        branch_shown.as_str(),
        executor_shown.as_str(),
    )
}

} // verus!
