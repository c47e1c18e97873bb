//! The line protocol between a helper that runs outside the sandbox and the
//! process that started it. The helper has one channel back, its standard
//! output, and writes one record per line:
//!
//! * a progress record, five fields separated by `::`: the label of the
//!   repository, the operation, the reference, a status text and a percentage
//!   from 0 to 100;
//! * a line that holds the token `RUNNING_APPLICATION`, once the application
//!   has been launched;
//! * anything else, which a reader skips.
//!
//! The format has no escaping: a field that holds `::` cannot be told from two
//! fields.

use vstd::prelude::*;
use vstd::string::StringExecFns;
use crate::text::{
    all_digits, contains, decimal_digits, decimal_string, eq_ignoring_case, find_from, is_digit,
    lemma_decimal_digits, lemma_find_from, natural_upto, occurs_at, read_natural_upto,
    same_ignoring_case, split, split_from, split_str, str_contains, str_eq, unsigned_part, views,
};

verus! {

/// The text between two fields of a progress record.
pub open spec fn separator() -> Seq<char> {
    "::"@
}

/// The token that tells that the application is running.
pub open spec fn sentinel() -> Seq<char> {
    "RUNNING_APPLICATION"@
}

/// The label of the stream of the dependency transaction.
pub open spec fn dependency_label() -> Seq<char> {
    "DEPS"@
}

/// The label of the stream of the application transaction.
pub open spec fn application_label() -> Seq<char> {
    "TEMP"@
}

/// The greatest percentage.
pub const MAX_PERCENT: u8 = 100;

/// The transaction that a progress record comes from.
#[derive(Clone, Copy, Debug, PartialEq, Eq, Structural)]
pub enum Origin {
    /// The transaction that installs the runtime.
    Dependency,
    /// The transaction that installs the application.
    Application,
    /// A label that is neither of the two.
    Other,
}

/// The kind of operation that a progress record reports.
#[derive(Clone, Copy, Debug, PartialEq, Eq, Structural)]
pub enum OperationKind {
    /// An install from a remote.
    Install,
    /// An install from a bundle file.
    InstallBundle,
    /// Any other operation.
    Other,
}

/// One change of state of one operation of a transaction.
#[derive(Clone, Debug, PartialEq, Eq)]
pub struct ProgressEvent {
    /// The label of the repository that the transaction works on.
    pub repo: String,
    /// The operation, as the transaction engine names it.
    pub action: String,
    /// The reference that the operation installs.
    pub app_ref: String,
    /// The status text.
    pub message: String,
    /// How far the operation has come, from 0 to 100.
    pub percent: u8,
}

/// A progress event as contracts see it.
pub struct ProgressRecord {
    pub repo: Seq<char>,
    pub action: Seq<char>,
    pub app_ref: Seq<char>,
    pub message: Seq<char>,
    pub percent: int,
}

impl View for ProgressEvent {
    type V = ProgressRecord;

    open spec fn view(&self) -> ProgressRecord {
        ProgressRecord {
            repo: self.repo@,
            action: self.action@,
            app_ref: self.app_ref@,
            message: self.message@,
            percent: self.percent as int,
        }
    }
}

/// What one line of a helper's output means.
#[derive(Clone, Debug, PartialEq, Eq)]
pub enum Decoded {
    /// A progress record.
    Progress(ProgressEvent),
    /// The application has been launched.
    Running,
    /// Output that is not part of the protocol.
    Ignored,
}

/// A decoded line as contracts see it.
pub enum DecodedRecord {
    Progress(ProgressRecord),
    Running,
    Ignored,
}

impl View for Decoded {
    type V = DecodedRecord;

    open spec fn view(&self) -> DecodedRecord {
        match self {
            Decoded::Progress(e) => DecodedRecord::Progress(e@),
            Decoded::Running => DecodedRecord::Running,
            Decoded::Ignored => DecodedRecord::Ignored,
        }
    }
}

/// The percentage that a field denotes: an integer from 0 to 100 in base ten.
pub open spec fn percent_of(field: Seq<char>) -> Option<int> {
    natural_upto(field, 100)
}

/// The fields of a line.
pub open spec fn fields_of(line: Seq<char>) -> Seq<Seq<char>> {
    split(line, separator())
}

/// `line` is a progress record: five fields, the last one a percentage.
pub open spec fn is_progress_line(line: Seq<char>) -> bool {
    fields_of(line).len() == 5 && percent_of(fields_of(line)[4]) is Some
}

/// What a line means.
pub open spec fn decode_line(line: Seq<char>) -> DecodedRecord {
    let fields = fields_of(line);
    if is_progress_line(line) {
        DecodedRecord::Progress(
            ProgressRecord {
                repo: fields[0],
                action: fields[1],
                app_ref: fields[2],
                message: fields[3],
                percent: percent_of(fields[4])->0,
            },
        )
    } else if contains(line, sentinel()) {
        DecodedRecord::Running
    } else {
        DecodedRecord::Ignored
    }
}

/// The line that carries a progress record.
pub open spec fn encode_record(e: ProgressRecord) -> Seq<char> {
    e.repo + separator() + e.action + separator() + e.app_ref + separator() + e.message
        + separator() + decimal_digits(e.percent as nat)
}

/// The transaction that a label names.
pub open spec fn origin_of(label: Seq<char>) -> Origin {
    if label == dependency_label() {
        Origin::Dependency
    } else if label == application_label() {
        Origin::Application
    } else {
        Origin::Other
    }
}

/// The kind of operation that an action text names, whatever its case.
pub open spec fn kind_of(action: Seq<char>) -> OperationKind {
    if same_ignoring_case(action, "install"@) {
        OperationKind::Install
    } else if same_ignoring_case(action, "install-bundle"@) {
        OperationKind::InstallBundle
    } else {
        OperationKind::Other
    }
}

/// Reads one line of a helper's output. Every line has a meaning: a line that
/// is not a progress record and does not hold the token is `Ignored`.
pub fn decode(line: &str) -> (d: Decoded)
    ensures
        d@ == decode_line(line@),
        d is Progress <==> is_progress_line(line@),
        d matches Decoded::Progress(e) ==> e.percent <= MAX_PERCENT,
{
    proof {
        reveal_strlit("::");
    }
    let mut fields = split_str(line, "::");
    if fields.len() == 5 {
        let ghost all = views(fields@);
        match read_natural_upto(fields[4].as_str(), 100) {
            Some(p) => {
                let message = fields.remove(3);
                let app_ref = fields.remove(2);
                let action = fields.remove(1);
                let repo = fields.remove(0);
                assert(repo@ == all[0] && action@ == all[1] && app_ref@ == all[2] && message@
                    == all[3]);
                return Decoded::Progress(
                    ProgressEvent { repo, action, app_ref, message, percent: p as u8 },
                );
            },
            None => {},
        }
    }
    if str_contains(line, "RUNNING_APPLICATION") {
        Decoded::Running
    } else {
        Decoded::Ignored
    }
}

impl ProgressEvent {
    /// The percentage is at most 100.
    pub open spec fn wf(&self) -> bool {
        self.percent <= MAX_PERCENT
    }

    /// The line that carries this event. Where the event is well formed and
    /// its fields are plain, the line reads back as the event.
    pub fn encode(&self) -> (line: String)
        ensures
            line@ == encode_record(self@),
            self.wf() && is_plain_record(self@) ==> decode_line(line@) == DecodedRecord::Progress(
                self@,
            ),
    {
        proof {
            if self.wf() && is_plain_record(self@) {
                decode_inverts_encode(self@);
            }
        }
        let mut line = self.repo.clone();
        line.append("::");
        line.append(self.action.as_str());
        line.append("::");
        line.append(self.app_ref.as_str());
        line.append("::");
        line.append(self.message.as_str());
        line.append("::");
        let digits = decimal_string(self.percent as u32);
        line.append(digits.as_str());
        line
    }

    /// The transaction that this event comes from.
    pub fn origin(&self) -> (o: Origin)
        ensures
            o == origin_of(self.repo@),
    {
        if str_eq(self.repo.as_str(), "DEPS") {
            Origin::Dependency
        } else if str_eq(self.repo.as_str(), "TEMP") {
            Origin::Application
        } else {
            Origin::Other
        }
    }

    /// The kind of operation that this event reports.
    pub fn kind(&self) -> (k: OperationKind)
        ensures
            k == kind_of(self.action@),
    {
        if eq_ignoring_case(self.action.as_str(), "install") {
            OperationKind::Install
        } else if eq_ignoring_case(self.action.as_str(), "install-bundle") {
            OperationKind::InstallBundle
        } else {
            OperationKind::Other
        }
    }
}

/// The line that tells that the application is running.
pub fn running_line() -> (line: String)
    ensures
        line@ == sentinel(),
{
    "RUNNING_APPLICATION".to_owned()
}

/// The label under which the records of a transaction are written.
pub open spec fn label_of(origin: Origin) -> Seq<char> {
    match origin {
        Origin::Dependency => dependency_label(),
        Origin::Application => application_label(),
        Origin::Other => "OTHER"@,
    }
}

/// The greater of two percentages.
pub open spec fn later_percent(before: int, now: int) -> int {
    if now < before {
        before
    } else {
        now
    }
}

/// The percentage that the engine's number stands for: the number itself,
/// held to the range from 0 to 100.
pub open spec fn percent_in_range(progress: int) -> int {
    if progress < 0 {
        0
    } else if progress > 100 {
        100
    } else {
        progress
    }
}

/// The engine's number as a percentage.
pub fn clamp_percent(progress: i32) -> (p: u8)
    ensures
        p == percent_in_range(progress as int),
        p <= MAX_PERCENT,
{
    if progress < 0 {
        0
    } else if progress > 100 {
        100
    } else {
        progress as u8
    }
}

/// The progress of one operation of a transaction. It writes the records of
/// that operation and sees to it that their percentages never fall.
#[derive(Debug)]
pub struct OperationProgress {
    repo: String,
    action: String,
    app_ref: String,
    last: u8,
}

impl OperationProgress {
    /// The label of the transaction.
    pub closed spec fn repo(&self) -> Seq<char> {
        self.repo@
    }

    /// The operation.
    pub closed spec fn action(&self) -> Seq<char> {
        self.action@
    }

    /// The reference that the operation works on.
    pub closed spec fn app_ref(&self) -> Seq<char> {
        self.app_ref@
    }

    /// The percentage of the last record written.
    pub closed spec fn last(&self) -> int {
        self.last as int
    }

    /// The record of this operation with the given status and percentage.
    pub open spec fn record(&self, message: Seq<char>, percent: int) -> ProgressRecord {
        ProgressRecord {
            repo: self.repo(),
            action: self.action(),
            app_ref: self.app_ref(),
            message,
            percent,
        }
    }

    /// A percentage is at most 100.
    #[verifier::type_invariant]
    closed spec fn wf(&self) -> bool {
        self.last <= MAX_PERCENT
    }

    /// A new operation of the transaction `origin`: the operation as the
    /// engine names it, the reference it works on, and how far the engine
    /// says it is. Returns the first record along with the operation.
    pub fn begin(origin: Origin, action: &str, app_ref: &str, message: &str, progress: i32) -> (r: (
        OperationProgress,
        ProgressEvent,
    ))
        ensures
            r.0.repo() == label_of(origin),
            r.0.action() == action@,
            r.0.app_ref() == app_ref@,
            r.0.last() == percent_in_range(progress as int),
            r.1@ == r.0.record(message@, r.0.last()),
    {
        let label = match origin {
            Origin::Dependency => "DEPS",
            Origin::Application => "TEMP",
            Origin::Other => "OTHER",
        };
        let percent: u8 = clamp_percent(progress);
        let operation = OperationProgress {
            repo: label.to_owned(),
            action: action.to_owned(),
            app_ref: app_ref.to_owned(),
            last: percent,
        };
        let event = ProgressEvent {
            repo: label.to_owned(),
            action: action.to_owned(),
            app_ref: app_ref.to_owned(),
            message: message.to_owned(),
            percent,
        };
        (operation, event)
    }

    /// The operation has changed: the record to write. Its percentage is what
    /// the engine says, held to the range from 0 to 100, but never less than
    /// that of the record before.
    pub fn changed(&mut self, message: &str, progress: i32) -> (event: ProgressEvent)
        ensures
            final(self).repo() == old(self).repo(),
            final(self).action() == old(self).action(),
            final(self).app_ref() == old(self).app_ref(),
            final(self).last() == later_percent(
                old(self).last(),
                percent_in_range(progress as int),
            ),
            old(self).last() <= final(self).last() <= MAX_PERCENT,
            event@ == final(self).record(message@, final(self).last()),
    {
        proof {
            use_type_invariant(&*self);
        }
        let now: u8 = clamp_percent(progress);
        if now > self.last {
            self.last = now;
        }
        ProgressEvent {
            repo: self.repo.clone(),
            action: self.action.clone(),
            app_ref: self.app_ref.clone(),
            message: message.to_owned(),
            percent: self.last,
        }
    }
}

/// The label that records are written under names the transaction again.
pub proof fn label_names_origin(origin: Origin)
    ensures
        origin_of(label_of(origin)) == origin,
{
    reveal_strlit("DEPS");
    reveal_strlit("TEMP");
    reveal_strlit("OTHER");
    assert("DEPS"@.len() == 4);
    assert("OTHER"@.len() == 5);
    assert("TEMP"@[0] == 'T');
    assert("DEPS"@[0] == 'D');
}


/// A field that can be written into a record and read back: it holds no
/// separator, and no colon at its end that would run into the separator
/// behind it.
pub open spec fn is_plain_field(field: Seq<char>) -> bool {
    !contains(field, separator()) && (field.len() == 0 || field.last() != ':')
}

/// A record that can be written and read back: four plain fields and a
/// percentage.
pub open spec fn is_plain_record(e: ProgressRecord) -> bool {
    &&& is_plain_field(e.repo)
    &&& is_plain_field(e.action)
    &&& is_plain_field(e.app_ref)
    &&& is_plain_field(e.message)
    &&& 0 <= e.percent <= 100
}

/// Behind a plain field that stands in `s` from `start` on and has a
/// separator after it, the next separator is that one.
proof fn lemma_separator_after_field(s: Seq<char>, start: int, field: Seq<char>)
    requires
        0 <= start,
        start + field.len() + 2 <= s.len(),
        s.subrange(start, start + field.len()) == field,
        s[start + field.len()] == ':',
        s[start + field.len() + 1] == ':',
        is_plain_field(field),
    ensures
        find_from(s, separator(), start) == Some(start + field.len()),
{
    reveal_strlit("::");
    let sep = separator();
    let at = start + field.len();
    assert(sep.len() == 2 && sep[0] == ':' && sep[1] == ':');
    assert(occurs_at(s, sep, at)) by {
        assert(s.subrange(at, at + 2) =~= sep);
    }
    assert forall|j: int| start <= j < at implies !occurs_at(s, sep, j) by {
        if occurs_at(s, sep, j) {
            assert(s.subrange(j, j + 2)[0] == ':');
            assert(s.subrange(j, j + 2)[1] == ':');
            assert(s[j] == field[j - start]);
            if j + 1 < at {
                assert(s[j + 1] == field[j + 1 - start]);
                assert(field.subrange(j - start, j - start + 2) =~= sep);
                assert(occurs_at(field, sep, j - start));
            } else {
                assert(field.last() == s[j]);
            }
        }
    }
    lemma_find_from(s, sep, start);
}

/// Where only digits follow, no separator follows.
proof fn lemma_no_separator_in_digits(s: Seq<char>, start: int)
    requires
        0 <= start <= s.len(),
        all_digits(s.subrange(start, s.len() as int)),
    ensures
        find_from(s, separator(), start) is None,
{
    reveal_strlit("::");
    let sep = separator();
    let tail = s.subrange(start, s.len() as int);
    assert forall|j: int| start <= j implies !occurs_at(s, sep, j) by {
        if occurs_at(s, sep, j) {
            assert(s.subrange(j, j + 2)[0] == ':');
            assert(is_digit(tail[j - start]));
        }
    }
    lemma_find_from(s, sep, start);
}

/// A number written in base ten reads back as itself.
pub proof fn percent_reads_back(n: nat)
    requires
        n <= 100,
    ensures
        percent_of(decimal_digits(n)) == Some(n as int),
{
    let digits = decimal_digits(n);
    lemma_decimal_digits(n);
    assert(is_digit(digits[0]));
    assert(unsigned_part(digits) == digits);
}

/// What is written is read back: the line that carries a plain record
/// decodes to that record.
pub proof fn decode_inverts_encode(e: ProgressRecord)
    requires
        is_plain_record(e),
    ensures
        is_progress_line(encode_record(e)),
        decode_line(encode_record(e)) == DecodedRecord::Progress(e),
{
    reveal_strlit("::");
    let sep = separator();
    let digits = decimal_digits(e.percent as nat);
    let line = encode_record(e);
    lemma_decimal_digits(e.percent as nat);
    percent_reads_back(e.percent as nat);
    let end_repo = e.repo.len() as int;
    let at_action = end_repo + 2;
    let end_action = at_action + e.action.len();
    let at_ref = end_action + 2;
    let end_ref = at_ref + e.app_ref.len();
    let at_message = end_ref + 2;
    let end_message = at_message + e.message.len();
    let at_percent = end_message + 2;
    assert(line.len() == at_percent + digits.len());
    assert(line.subrange(0, end_repo) =~= e.repo);
    assert(line.subrange(at_action, end_action) =~= e.action);
    assert(line.subrange(at_ref, end_ref) =~= e.app_ref);
    assert(line.subrange(at_message, end_message) =~= e.message);
    assert(line.subrange(at_percent, line.len() as int) =~= digits);
    lemma_separator_after_field(line, 0, e.repo);
    lemma_separator_after_field(line, at_action, e.action);
    lemma_separator_after_field(line, at_ref, e.app_ref);
    lemma_separator_after_field(line, at_message, e.message);
    lemma_no_separator_in_digits(line, at_percent);
    assert(split_from(line, sep, at_percent) == seq![digits]);
    assert(split_from(line, sep, at_message) == seq![e.message] + seq![digits]);
    assert(split_from(line, sep, at_ref) == seq![e.app_ref] + (seq![e.message] + seq![digits]));
    assert(split_from(line, sep, at_action) == seq![e.action] + (seq![e.app_ref] + (seq![e.message]
        + seq![digits])));
    assert(split_from(line, sep, 0) == seq![e.repo] + (seq![e.action] + (seq![e.app_ref] + (
    seq![e.message] + seq![digits]))));
    assert(fields_of(line) =~= seq![e.repo, e.action, e.app_ref, e.message, digits]);
}

/// Whatever a line holds, it has a meaning, and where that is a progress
/// record its percentage lies from 0 to 100.
pub proof fn decoded_percent_is_in_range(line: Seq<char>)
    ensures
        decode_line(line) is Progress <==> is_progress_line(line),
        decode_line(line) matches DecodedRecord::Progress(record) ==> 0 <= record.percent <= 100,
{
}


} // verus!
