//! Names derived from identifiers: the text of an id, its short form, and
//! the git branch of a workspace.

use vstd::prelude::*;
use vstd::string::*;
use crate::text::concat2;

verus! {

/// The text the `uuid` crate writes for an id in its simple form: 32
/// lower-case hexadecimal digits, without hyphens.
pub uninterp spec fn simple_text_of(id: u128) -> Seq<char>;

/// The text the `uuid` crate writes for an id in its hyphenated form.
pub uninterp spec fn hyphenated_text_of(id: u128) -> Seq<char>;

/// How many characters of an id's simple form make its short form.
pub const SHORT_UUID_LEN: usize = 4;

/// Formats an id through `uuid::Uuid::simple`. The contract names the
/// text and gives its length, 32, which is the length the crate declares
/// for the simple form.
#[verifier::external_body]
fn simple_text(id: u128) -> (text: String)
    ensures
        text@ == simple_text_of(id),
        text@.len() == 32,
{
    uuid::Uuid::from_u128(id).simple().to_string()
}

/// Formats an id through the `Display` of `uuid::Uuid`, which writes the
/// hyphenated form. The contract names the text.
#[verifier::external_body]
fn hyphenated_text(id: u128) -> (text: String)
    ensures
        text@ == hyphenated_text_of(id),
{
    uuid::Uuid::from_u128(id).to_string()
}

/// The text of an id, in its hyphenated form.
pub fn uuid_text(id: u128) -> (text: String)
    ensures
        text@ == hyphenated_text_of(id),
{
    hyphenated_text(id)
}

/// The short form of an id: the first characters of its simple form.
pub fn short_uuid(id: u128) -> (short: String)
    ensures
        short@ == simple_text_of(id).subrange(0, SHORT_UUID_LEN as int),
        short@.len() == SHORT_UUID_LEN,
{
    let full = simple_text(id);
    String::from_str(full.as_str().substring_char(0, SHORT_UUID_LEN))
}

/// The lower-case form that the standard library gives a text.
pub uninterp spec fn lowercase_of(text: Seq<char>) -> Seq<char>;

/// Lower-cases a text with `str::to_lowercase`. The contract names the
/// result: it is a function of the text alone. Nothing else is claimed of
/// it.
#[verifier::external_body]
fn lowercase(text: &str) -> (lower: String)
    ensures
        lower@ == lowercase_of(text@),
{
    text.to_lowercase()
}

/// `String::push` appends one character to the end of a string.
pub assume_specification[ String::push ](s: &mut String, c: char)
    ensures
        final(s)@ == old(s)@.push(c),
;

/// Whether a character may stand in a slug as it is: a lower-case ASCII
/// letter or a digit.
pub open spec fn is_slug_char(c: char) -> bool {
    ('a' <= c && c <= 'z') || ('0' <= c && c <= '9')
}

/// A text with every run of characters that may not stand in a slug
/// replaced by one hyphen, but for a run at the very start, which is
/// dropped.
pub open spec fn hyphenate(text: Seq<char>) -> Seq<char>
    decreases text.len(),
{
    if text.len() == 0 {
        Seq::empty()
    } else {
        let head = hyphenate(text.drop_last());
        if is_slug_char(text.last()) {
            head.push(text.last())
        } else if head.len() > 0 && head.last() != '-' {
            head.push('-')
        } else {
            head
        }
    }
}

/// The slug of a lower-case text: its runs of letters and digits, joined
/// by single hyphens.
pub open spec fn slug_of(lower: Seq<char>) -> Seq<char> {
    let joined = hyphenate(lower);
    if joined.len() > 0 && joined.last() == '-' {
        joined.drop_last()
    } else {
        joined
    }
}

/// Whether a text is a slug: lower-case ASCII letters, digits and
/// hyphens, with no hyphen at either end and no two hyphens in a row.
pub open spec fn is_slug(text: Seq<char>) -> bool {
    &&& forall|k: int| 0 <= k < text.len() ==> is_slug_char(#[trigger] text[k]) || text[k] == '-'
    &&& text.len() > 0 ==> text[0] != '-' && text.last() != '-'
    &&& forall|k: int| 0 < k < text.len() && #[trigger] text[k] == '-' ==> text[k - 1] != '-'
}

/// Builds the slug of a text that is already in lower case.
pub fn slug_from_lowercase(lower: &str) -> (slug: String)
    ensures
        slug@ == slug_of(lower@),
        is_slug(slug@),
{
    let n = lower.unicode_len();
    let mut slug = String::new();
    let mut started = false;
    let mut pending = false;
    let mut i: usize = 0;
    proof {
        assert(lower@.take(0) =~= Seq::<char>::empty());
    }
    while i < n
        invariant
            0 <= i <= n,
            n == lower@.len(),
            started == (slug@.len() > 0),
            pending ==> started,
            hyphenate(lower@.take(i as int)) == (if pending {
                slug@.push('-')
            } else {
                slug@
            }),
            is_slug(slug@),
        decreases n - i,
    {
        let c = lower.get_char(i);
        proof {
            let next = lower@.take(i as int + 1);
            assert(next.drop_last() =~= lower@.take(i as int));
            assert(next.last() == c);
        }
        if (c >= 'a' && c <= 'z') || (c >= '0' && c <= '9') {
            if pending {
                slug.push('-');
            }
            slug.push(c);
            started = true;
            pending = false;
        } else if started {
            pending = true;
        }
        i = i + 1;
    }
    proof {
        assert(lower@.take(n as int) =~= lower@);
        if pending {
            assert(slug@.push('-').drop_last() =~= slug@);
        }
    }
    slug
}

/// The slug of a task's title, as branch names carry it: the title in
/// lower case, with its runs of ASCII letters and digits joined by single
/// hyphens.
pub fn git_branch_id(input: &str) -> (slug: String)
    ensures
        slug@ == slug_of(lowercase_of(input@)),
        is_slug(slug@),
{
    let lower = lowercase(input);
    slug_from_lowercase(lower.as_str())
}

/// The branch name made of a prefix, a short id and a title slug: short
/// id and slug joined by a hyphen, below the prefix where there is one.
pub open spec fn branch_name(prefix: Seq<char>, short_id: Seq<char>, title_id: Seq<char>) -> Seq<
    char,
> {
    if prefix.len() == 0 {
        short_id + "-"@ + title_id
    } else {
        prefix + "/"@ + short_id + "-"@ + title_id
    }
}

/// Builds a branch name from its parts.
pub fn branch_name_from_parts(prefix: &str, short_id: &str, title_id: &str) -> (branch: String)
    ensures
        branch@ == branch_name(prefix@, short_id@, title_id@),
{
    let mut branch = if prefix.is_empty() {
        String::from_str(short_id)
    } else {
        let mut start = concat2(prefix, "/");
        start.append(short_id);
        start
    };
    branch.append("-");
    branch.append(title_id);
    branch
}

/// The git branch of a workspace: the short form of its id and the slug
/// of its task's title, below the configured prefix where there is one.
pub fn git_branch_from_workspace(prefix: &str, workspace_id: u128, task_title: &str) -> (branch:
    String)
    ensures
        branch@ == branch_name(
            prefix@,
            simple_text_of(workspace_id).subrange(0, SHORT_UUID_LEN as int),
            slug_of(lowercase_of(task_title@)),
        ),
{
    let short_id = short_uuid(workspace_id);
    let title_id = git_branch_id(task_title);
    branch_name_from_parts(prefix, short_id.as_str(), title_id.as_str())
}

/// The path of an execution's log file below an asset root: the session's
/// directory under `logs`, and in it a file named by the execution.
pub open spec fn log_file_path(asset_root: Seq<char>, session_id: u128, execution_id: u128) -> Seq<
    char,
> {
    asset_root + "/logs/"@ + hyphenated_text_of(session_id) + "/"@ + hyphenated_text_of(
        execution_id,
    ) + ".jsonl"@
}

/// Builds the path of a log file from the root and the texts of the two
/// ids.
pub fn log_file_path_from_parts(asset_root: &str, session_text: &str, execution_text: &str) -> (path:
    String)
    ensures
        path@ == asset_root@ + "/logs/"@ + session_text@ + "/"@ + execution_text@ + ".jsonl"@,
{
    let mut path = concat2(asset_root, "/logs/");
    path.append(session_text);
    path.append("/");
    path.append(execution_text);
    path.append(".jsonl");
    path
}

/// The path of the log file of an execution below an asset root.
pub fn process_log_file_path_in_root(asset_root: &str, session_id: u128, execution_id: u128) -> (path:
    String)
    ensures
        path@ == log_file_path(asset_root@, session_id, execution_id),
{
    let session_text = hyphenated_text(session_id);
    let execution_text = hyphenated_text(execution_id);
    log_file_path_from_parts(asset_root, session_text.as_str(), execution_text.as_str())
}

/// The directory that holds the log files of a session.
pub fn process_logs_session_dir(asset_root: &str, session_id: u128) -> (path: String)
    ensures
        path@ == asset_root@ + "/logs/"@ + hyphenated_text_of(session_id),
{
    let session_text = hyphenated_text(session_id);
    let mut path = concat2(asset_root, "/logs/");
    path.append(session_text.as_str());
    path
}

/// The temporary file a log file is written through while it is migrated:
/// a sibling of the log file, with `.tmp` behind its name.
pub fn migration_temp_path(log_file: &str) -> (path: String)
    ensures
        path@ == log_file@ + ".tmp"@,
{
    concat2(log_file, ".tmp")
}

} // verus!
