//! The one-shot migration of legacy log rows into per-execution files.

use vstd::prelude::*;
use vstd::string::*;
use crate::text::{concat2, opt_text};

verus! {

/// A stored row as a line of the file: the row itself where it already
/// ends with a line feed, else the row and a line feed.
pub open spec fn line_of(row: Seq<char>) -> Seq<char> {
    if row.len() > 0 && row.last() == '\n' {
        row
    } else {
        row + seq!['\n']
    }
}

/// The contents of the file that holds the given rows, in stored order.
pub open spec fn file_of(rows: Seq<Seq<char>>) -> Seq<char>
    decreases rows.len(),
{
    if rows.len() == 0 {
        Seq::empty()
    } else {
        file_of(rows.drop_last()) + line_of(rows.last())
    }
}

/// The texts of a list of rows.
pub open spec fn row_texts(rows: Seq<String>) -> Seq<Seq<char>> {
    rows.map_values(|r: String| r@)
}

/// Turns a stored row into a line of the file.
pub fn migration_line(row: String) -> (line: String)
    ensures
        line@ == line_of(row@),
{
    let n = row.as_str().unicode_len();
    if n > 0 && row.as_str().get_char(n - 1) == '\n' {
        row
    } else {
        let mut line = row;
        proof {
            reveal_strlit("\n");
            assert("\n"@ =~= seq!['\n']);
        }
        line.append("\n");
        line
    }
}

/// What the migration does for one execution.
#[derive(Debug)]
pub enum MigrationOutcome {
    /// The destination file exists: it is left as it is.
    SkipExisting,
    /// The execution has no rows: no file is made for it.
    SkipEmpty,
    /// The file to write, through a temporary file that is renamed once
    /// its contents are on disk.
    Write(String),
}

pub ghost enum MigrationOutcomeView {
    SkipExisting,
    SkipEmpty,
    Write(Seq<char>),
}

impl View for MigrationOutcome {
    type V = MigrationOutcomeView;

    open spec fn view(&self) -> MigrationOutcomeView {
        match self {
            MigrationOutcome::SkipExisting => MigrationOutcomeView::SkipExisting,
            MigrationOutcome::SkipEmpty => MigrationOutcomeView::SkipEmpty,
            MigrationOutcome::Write(contents) => MigrationOutcomeView::Write(contents@),
        }
    }
}

/// What the migration does for an execution with the given rows.
pub open spec fn migration_outcome(destination_exists: bool, rows: Seq<Seq<char>>)
    -> MigrationOutcomeView {
    if destination_exists {
        MigrationOutcomeView::SkipExisting
    } else if rows.len() == 0 {
        MigrationOutcomeView::SkipEmpty
    } else {
        MigrationOutcomeView::Write(file_of(rows))
    }
}

/// Migrates the rows of one execution: an existing destination is never
/// touched, an execution without rows gets no file, and any other gets a
/// file of its rows, one per line, in stored order.
pub fn migrate_execution_logs_to_files(destination_exists: bool, rows: Vec<String>) -> (outcome:
    MigrationOutcome)
    ensures
        outcome@ == migration_outcome(destination_exists, row_texts(rows@)),
{
    if destination_exists {
        return MigrationOutcome::SkipExisting;
    }
    if rows.len() == 0 {
        return MigrationOutcome::SkipEmpty;
    }
    let ghost texts = row_texts(rows@);
    let mut contents = String::new();
    let mut i: usize = 0;
    proof {
        assert(texts.take(0) =~= Seq::<Seq<char>>::empty());
    }
    while i < rows.len()
        invariant
            0 <= i <= rows.len(),
            texts == row_texts(rows@),
            contents@ == file_of(texts.take(i as int)),
        decreases rows.len() - i,
    {
        let line = migration_line(rows[i].clone());
        proof {
            let next = texts.take(i as int + 1);
            assert(next.drop_last() =~= texts.take(i as int));
            assert(next.last() == rows@[i as int]@);
        }
        contents.append(line.as_str());
        i = i + 1;
    }
    proof {
        assert(texts.take(rows.len() as int) =~= texts);
    }
    MigrationOutcome::Write(contents)
}

/// How a run of the migration reports its progress.
#[derive(Clone, Copy, Debug, PartialEq, Eq, Structural)]
pub enum ProgressMode {
    /// A spinner, for a terminal.
    Spinner,
    /// Plain progress lines, for any other stream.
    Lines,
}

/// Whether a run of the migration has anything to do, and how it reports
/// its progress if so: it runs only while the legacy table holds rows, so
/// a run after a completed one ends at once.
pub fn migration_run(legacy_table_has_rows: bool, stderr_is_terminal: bool) -> (mode: Option<
    ProgressMode,
>)
    ensures
        mode is Some <==> legacy_table_has_rows,
        mode is Some ==> (mode.unwrap() == ProgressMode::Spinner <==> stderr_is_terminal),
{
    if !legacy_table_has_rows {
        None
    } else if stderr_is_terminal {
        Some(ProgressMode::Spinner)
    } else {
        Some(ProgressMode::Lines)
    }
}

/// The line that ends the progress lines of a run; a spinner is cleared
/// without one.
pub fn completion_line(mode: ProgressMode) -> (line: Option<String>)
    ensures
        opt_text(line) == (match mode {
            ProgressMode::Spinner => None,
            ProgressMode::Lines => Some("sqlite-migration:done"@),
        }),
{
    match mode {
        ProgressMode::Spinner => None,
        ProgressMode::Lines => Some(String::from_str("sqlite-migration:done")),
    }
}

/// Migration idempotence: a run never writes over a file that is there,
/// so a second run over executions whose files the first run made leaves
/// every file as it is; and an execution without rows never gets a file.
pub proof fn lemma_migration_keeps_files(rows: Seq<Seq<char>>)
    ensures
        migration_outcome(true, rows) is SkipExisting,
        !(migration_outcome(false, Seq::empty()) is Write),
{
}

/// How many executions are migrated between two progress lines.
pub const PROGRESS_INTERVAL: usize = 100;

/// How many executions may be migrated at the same time.
pub const MAX_IN_FLIGHT: usize = 64;

/// What is reported after an execution has been migrated.
#[derive(Clone, Copy, Debug, PartialEq, Eq, Structural)]
pub enum Progress {
    /// Nothing is reported.
    Silent,
    /// The share of the executions migrated so far, in percent.
    Percent(u128),
    /// The share cannot be given: the total is not known yet.
    Unknown,
}

/// The report due once `completed` executions have been migrated, of
/// `total` as far as it is known: every hundredth completion reports the
/// share reached, rounded down.
pub open spec fn progress_of(completed: usize, total: usize) -> Progress {
    if completed % PROGRESS_INTERVAL != 0 {
        Progress::Silent
    } else if total > 0 {
        Progress::Percent((completed as int * 100 / total as int) as u128)
    } else {
        Progress::Unknown
    }
}

/// The report due once `completed` executions have been migrated.
pub fn progress_report(completed: usize, total: usize) -> (progress: Progress)
    ensures
        progress == progress_of(completed, total),
{
    if completed % PROGRESS_INTERVAL != 0 {
        Progress::Silent
    } else if total > 0 {
        let scaled: u128 = (completed as u128) * 100;
        Progress::Percent(scaled / (total as u128))
    } else {
        Progress::Unknown
    }
}

/// The decimal digits of a number.
pub open spec fn decimal_of(n: u128) -> Seq<char>
    decreases n,
{
    if n < 10 {
        seq![digit_of(n)]
    } else {
        decimal_of(n / 10).push(digit_of(n % 10))
    }
}

/// The character of a digit.
pub open spec fn digit_of(d: u128) -> char {
    if d == 0 {
        '0'
    } else if d == 1 {
        '1'
    } else if d == 2 {
        '2'
    } else if d == 3 {
        '3'
    } else if d == 4 {
        '4'
    } else if d == 5 {
        '5'
    } else if d == 6 {
        '6'
    } else if d == 7 {
        '7'
    } else if d == 8 {
        '8'
    } else {
        '9'
    }
}

/// The text of one digit.
fn digit_text(d: u128) -> (text: &'static str)
    requires
        d < 10,
    ensures
        text@ == seq![digit_of(d)],
{
    proof {
        reveal_strlit("0");
        reveal_strlit("1");
        reveal_strlit("2");
        reveal_strlit("3");
        reveal_strlit("4");
        reveal_strlit("5");
        reveal_strlit("6");
        reveal_strlit("7");
        reveal_strlit("8");
        reveal_strlit("9");
    }
    let text = if d == 0 {
        "0"
    } else if d == 1 {
        "1"
    } else if d == 2 {
        "2"
    } else if d == 3 {
        "3"
    } else if d == 4 {
        "4"
    } else if d == 5 {
        "5"
    } else if d == 6 {
        "6"
    } else if d == 7 {
        "7"
    } else if d == 8 {
        "8"
    } else {
        "9"
    };
    assert(text@ =~= seq![digit_of(d)]);
    text
}

/// Writes a number in decimal digits.
pub fn decimal(n: u128) -> (text: String)
    ensures
        text@ == decimal_of(n),
    decreases n,
{
    if n < 10 {
        String::from_str(digit_text(n))
    } else {
        let mut text = decimal(n / 10);
        text.append(digit_text(n % 10));
        proof {
            assert(decimal_of(n / 10) + seq![digit_of(n % 10)] =~= decimal_of(n / 10).push(
                digit_of(n % 10),
            ));
        }
        text
    }
}

/// The progress line of a report; none where nothing is reported.
pub open spec fn progress_line_of(progress: Progress) -> Option<Seq<char>> {
    match progress {
        Progress::Silent => None,
        Progress::Percent(p) => Some("sqlite-migration:"@ + decimal_of(p)),
        Progress::Unknown => Some("sqlite-migration:?"@),
    }
}

/// The line written for a report where progress goes to a plain stream.
pub fn progress_line(progress: Progress) -> (line: Option<String>)
    ensures
        opt_text(line) == progress_line_of(progress),
{
    match progress {
        Progress::Silent => None,
        Progress::Percent(p) => {
            let digits = decimal(p);
            Some(concat2("sqlite-migration:", digits.as_str()))
        },
        Progress::Unknown => Some(String::from_str("sqlite-migration:?")),
    }
}

} // verus!
