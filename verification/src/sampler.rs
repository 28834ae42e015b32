//! Turning the answer to a "what runs in the focused pane" query into a
//! sampled command.
//!
//! An answer comes in one of two forms: a list of client sessions, or the
//! text that a listing command printed. Both resolve to the same outcome:
//! a command, the explicit absence of one, or nothing usable at all.

use crate::search::{first_true, lemma_first_true};
use crate::text::{
    after_last, begins_with, first_at, lemma_trimmed_idempotent, owned, same_text, scan,
    scan_back_for, slice_views, split, split_on, to_chars, trim, trimmed,
};
use vstd::prelude::*;
use vstd::string::StrSliceExecFns;

verus! {

/// A running command, in the forms by which a set of names may hold
/// it.
#[derive(Clone, Debug, PartialEq, Eq)]
pub struct Command {
    /// The trimmed text of the command, as the host reports it.
    pub invocation: String,
    /// The program: the text up to its first whitespace, as the host
    /// reports it.
    pub program: String,
    /// The text without the directories that lead to the program.
    pub normalized: String,
    /// The program without the directories that lead to it.
    pub base_token: String,
}

/// A [`Command`] as the contracts speak of it.
pub struct CommandView {
    pub invocation: Seq<char>,
    pub program: Seq<char>,
    pub normalized: Seq<char>,
    pub base_token: Seq<char>,
}

impl DeepView for Command {
    type V = CommandView;

    open spec fn deep_view(&self) -> CommandView {
        CommandView {
            invocation: self.invocation@,
            program: self.program@,
            normalized: self.normalized@,
            base_token: self.base_token@,
        }
    }
}

impl View for Command {
    type V = CommandView;

    open spec fn view(&self) -> CommandView {
        self.deep_view()
    }
}

/// What one answer resolves to.
#[derive(Clone, Debug, PartialEq, Eq)]
pub enum SampleOutcome {
    /// The answer held nothing usable; the query is to be repeated later.
    Indeterminate,
    /// The answer named the command of the focused pane, or said that
    /// there is none.
    Resolved(Option<Command>),
}

/// A [`SampleOutcome`] as the contracts speak of it.
pub enum SampleOutcomeView {
    Indeterminate,
    Resolved(Option<CommandView>),
}

impl DeepView for SampleOutcome {
    type V = SampleOutcomeView;

    open spec fn deep_view(&self) -> SampleOutcomeView {
        match self {
            SampleOutcome::Indeterminate => SampleOutcomeView::Indeterminate,
            SampleOutcome::Resolved(c) => SampleOutcomeView::Resolved(c.deep_view()),
        }
    }
}

impl View for SampleOutcome {
    type V = SampleOutcomeView;

    open spec fn view(&self) -> SampleOutcomeView {
        self.deep_view()
    }
}

/// One client session of the host, as far as sampling reads it.
#[derive(Clone, Debug, PartialEq, Eq)]
pub struct ClientInfo {
    pub running_command: String,
    pub is_current_client: bool,
}

/// A [`ClientInfo`] as the contracts speak of it.
pub struct ClientInfoView {
    pub running_command: Seq<char>,
    pub is_current_client: bool,
}

impl DeepView for ClientInfo {
    type V = ClientInfoView;

    open spec fn deep_view(&self) -> ClientInfoView {
        ClientInfoView {
            running_command: self.running_command@,
            is_current_client: self.is_current_client,
        }
    }
}

impl View for ClientInfo {
    type V = ClientInfoView;

    open spec fn view(&self) -> ClientInfoView {
        self.deep_view()
    }
}

/// An answer as the host delivers it.
#[derive(Clone, Debug, PartialEq, Eq)]
pub enum RawResult {
    /// The client sessions of the host.
    Clients(Vec<ClientInfo>),
    /// The output of the listing command.
    Listing(String),
}

/// A [`RawResult`] as the contracts speak of it.
pub enum RawResultView {
    Clients(Seq<ClientInfoView>),
    Listing(Seq<char>),
}

impl DeepView for RawResult {
    type V = RawResultView;

    open spec fn deep_view(&self) -> RawResultView {
        match self {
            RawResult::Clients(clients) => RawResultView::Clients(clients.deep_view()),
            RawResult::Listing(output) => RawResultView::Listing(output@),
        }
    }
}

impl View for RawResult {
    type V = RawResultView;

    open spec fn view(&self) -> RawResultView {
        self.deep_view()
    }
}

/// The text that stands where a pane runs no command.
pub open spec fn no_command_marker() -> Seq<char> {
    "N/A"@
}

/// The prefix by which the kind column names a terminal pane.
pub open spec fn terminal_kind() -> Seq<char> {
    "terminal"@
}

/// The command that a trimmed, non-empty text names. The program is the
/// text up to its first whitespace; what precedes the last `/` of the
/// program is dropped from the stripped forms of both.
pub open spec fn command_of(text: Seq<char>) -> CommandView {
    let end = first_at(text, 0, true);
    let cut = after_last(text, '/', end);
    CommandView {
        invocation: text,
        program: text.subrange(0, end),
        normalized: text.skip(cut),
        base_token: text.subrange(cut, end),
    }
}

/// The outcome for one command text: nothing usable when it is blank, no
/// command when it is the marker, else the command it names.
pub open spec fn classify_text(raw: Seq<char>) -> SampleOutcomeView {
    let text = trimmed(raw);
    if text.len() == 0 {
        SampleOutcomeView::Indeterminate
    } else if text == no_command_marker() {
        SampleOutcomeView::Resolved(None)
    } else {
        SampleOutcomeView::Resolved(Some(command_of(text)))
    }
}

/// For each client, whether it is the current one and reports a command.
pub open spec fn client_flags(clients: Seq<ClientInfoView>) -> Seq<bool> {
    Seq::new(
        clients.len(),
        |i: int| clients[i].is_current_client && clients[i].running_command.len() > 0,
    )
}

/// The trimmed command of the first current client that reports one.
pub open spec fn current_command(clients: Seq<ClientInfoView>) -> Option<Seq<char>> {
    let i = first_true(client_flags(clients), 0);
    if 0 <= i < clients.len() {
        Some(trimmed(clients[i].running_command))
    } else {
        None
    }
}

/// The outcome for a list of clients: that of the first current client
/// that reports a command; nothing usable when there is no such client.
pub open spec fn sample_clients(clients: Seq<ClientInfoView>) -> SampleOutcomeView {
    let i = first_true(client_flags(clients), 0);
    if 0 <= i < clients.len() {
        classify_text(clients[i].running_command)
    } else {
        SampleOutcomeView::Indeterminate
    }
}

/// Where column `n` of a row begins, columns being runs of
/// non-whitespace counted from 0; the length of the row when it has no
/// such column.
pub open spec fn column_start(line: Seq<char>, n: nat) -> int
    decreases n,
{
    if n == 0 {
        first_at(line, 0, false)
    } else {
        first_at(line, first_at(line, column_start(line, (n - 1) as nat), true), false)
    }
}

/// Column `n` of a row; empty when the row has no such column.
pub open spec fn column(line: Seq<char>, n: nat) -> Seq<char> {
    let start = column_start(line, n);
    line.subrange(start, first_at(line, start, true))
}

/// The command text of a row: what stands from column 3 to the end of
/// the row, provided column 2 begins with the terminal kind.
pub open spec fn row_command(line: Seq<char>) -> Option<Seq<char>> {
    let start = column_start(line, 3);
    if start < line.len() && terminal_kind().is_prefix_of(column(line, 2)) {
        Some(line.skip(start))
    } else {
        None
    }
}

/// For each line of a listing, whether it is a row with a command text.
/// The first line is the header and never counts.
pub open spec fn row_flags(lines: Seq<Seq<char>>) -> Seq<bool> {
    Seq::new(lines.len(), |i: int| i >= 1 && row_command(lines[i]) is Some)
}

/// The outcome for the output of the listing command: that of the first
/// row with a command text; nothing usable when there is no such row.
pub open spec fn sample_listing(output: Seq<char>) -> SampleOutcomeView {
    let lines = split(output, '\n');
    let i = first_true(row_flags(lines), 0);
    if 0 <= i < lines.len() {
        classify_text(row_command(lines[i])->0)
    } else {
        SampleOutcomeView::Indeterminate
    }
}

/// The outcome for an answer of either form.
pub open spec fn sample_of(raw: RawResultView) -> SampleOutcomeView {
    match raw {
        RawResultView::Clients(clients) => sample_clients(clients),
        RawResultView::Listing(output) => sample_listing(output),
    }
}

/// Resolves one command text.
pub fn classify(raw: &str) -> (outcome: SampleOutcome)
    ensures
        outcome@ == classify_text(raw@),
{
    let text = trim(raw);
    let v = to_chars(text);
    if v.len() == 0 {
        return SampleOutcome::Indeterminate;
    }
    if same_text(text, "N/A") {
        return SampleOutcome::Resolved(None);
    }
    let end = scan(&v, 0, true);
    let cut = scan_back_for(&v, '/', end);
    let invocation = owned(text);
    let program = owned(text.substring_char(0, end));
    let normalized = owned(text.substring_char(cut, v.len()));
    let base_token = owned(text.substring_char(cut, end));
    SampleOutcome::Resolved(Some(Command { invocation, program, normalized, base_token }))
}

/// The trimmed command of the first current client that reports one.
pub fn find_current_command<'a>(clients: &'a Vec<ClientInfo>) -> (text: Option<&'a str>)
    ensures
        text.is_some() == current_command(clients.deep_view()).is_some(),
        text matches Some(t) ==> t@ == current_command(clients.deep_view())->0,
{
    let ghost flags = client_flags(clients.deep_view());
    let mut i: usize = 0;
    while i < clients.len()
        invariant
            i <= clients.len(),
            flags == client_flags(clients.deep_view()),
            forall|k: int| 0 <= k < i ==> !#[trigger] flags[k],
        decreases clients.len() - i,
    {
        let client = &clients[i];
        if client.is_current_client && !client.running_command.as_str().is_empty() {
            proof {
                lemma_first_true(flags, 0, i as int);
            }
            return Some(trim(client.running_command.as_str()));
        }
        i += 1;
    }
    proof {
        lemma_first_true(flags, 0, i as int);
    }
    None
}

/// Resolves a list of client sessions.
pub fn classify_clients(clients: &Vec<ClientInfo>) -> (outcome: SampleOutcome)
    ensures
        outcome@ == sample_clients(clients.deep_view()),
{
    match find_current_command(clients) {
        Some(text) => {
            proof {
                let i = first_true(client_flags(clients.deep_view()), 0);
                lemma_trimmed_idempotent(clients.deep_view()[i].running_command);
            }
            classify(text)
        },
        None => SampleOutcome::Indeterminate,
    }
}

/// The command text of one row of a listing, if the row has one.
pub fn parse_row<'a>(line: &'a str) -> (text: Option<&'a str>)
    ensures
        text.is_some() == row_command(line@).is_some(),
        text matches Some(t) ==> t@ == row_command(line@)->0,
{
    let v = to_chars(line);
    let kind = to_chars("terminal");
    let s0 = scan(&v, 0, false);
    let e0 = scan(&v, s0, true);
    let s1 = scan(&v, e0, false);
    let e1 = scan(&v, s1, true);
    let s2 = scan(&v, e1, false);
    let e2 = scan(&v, s2, true);
    let s3 = scan(&v, e2, false);
    proof {
        assert(column_start(line@, 0) == s0);
        assert(column_start(line@, 1) == s1);
        assert(column_start(line@, 2) == s2);
    }
    if s3 < v.len() && kind.len() <= e2 - s2 && begins_with(&v, s2, &kind) {
        proof {
            assert(kind@ =~= column(line@, 2).subrange(0, kind@.len() as int));
        }
        Some(line.substring_char(s3, v.len()))
    } else {
        None
    }
}

/// Resolves the output of the listing command.
pub fn classify_listing(output: &str) -> (outcome: SampleOutcome)
    ensures
        outcome@ == sample_listing(output@),
{
    let lines = split_on(output, '\n');
    let ghost flags = row_flags(split(output@, '\n'));
    let mut i: usize = 1;
    if lines.len() == 0 {
        proof {
            lemma_first_true(flags, 0, 0);
        }
        return SampleOutcome::Indeterminate;
    }
    while i < lines.len()
        invariant
            1 <= i <= lines.len(),
            slice_views(lines@) == split(output@, '\n'),
            flags == row_flags(split(output@, '\n')),
            forall|k: int| 0 <= k < i ==> !#[trigger] flags[k],
        decreases lines.len() - i,
    {
        match parse_row(lines[i]) {
            Some(text) => {
                proof {
                    lemma_first_true(flags, 0, i as int);
                }
                return classify(text);
            },
            None => {},
        }
        i += 1;
    }
    proof {
        lemma_first_true(flags, 0, i as int);
    }
    SampleOutcome::Indeterminate
}

/// Resolves an answer of either form.
pub fn on_result(raw: &RawResult) -> (outcome: SampleOutcome)
    ensures
        outcome@ == sample_of(raw@),
{
    match raw {
        RawResult::Clients(clients) => classify_clients(clients),
        RawResult::Listing(output) => classify_listing(output.as_str()),
    }
}

} // verus!
