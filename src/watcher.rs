use vstd::prelude::*;

use tracing_subscriber::filter::ParseError;
use tracing_subscriber::EnvFilter;

use crate::control::{directive, directive_of, is_silent, is_white_space, joined, lines_of, white_space};
use crate::json::string_eq;

verus! {

/// tracing-subscriber's compiled log filter, handed on to the reload handle.
#[verifier::external_type_specification]
#[verifier::external_body]
pub struct ExEnvFilter(EnvFilter);

/// tracing-subscriber's error for a malformed filter directive.
#[verifier::external_type_specification]
#[verifier::external_body]
pub struct ExParseError(ParseError);

/// Whether `EnvFilter::try_new` accepts a directive string.
pub uninterp spec fn filter_accepts(dirs: Seq<char>) -> bool;

/// No comma-separated piece of `d` begins with white space.
pub open spec fn pieces_start_clean(d: Seq<char>) -> bool {
    &&& (d.len() > 0 ==> !is_white_space(d[0]))
    &&& forall|i: int|
        0 <= i && i + 1 < d.len() && #[trigger] d[i] == ',' ==> !is_white_space(d[i + 1])
}

/// Relies on `EnvFilter::try_new`: it builds a filter from comma-separated
/// directives, or fails when one of them is malformed; which of the two
/// depends on the text alone. Each piece is parsed by walking the trimmed
/// piece while slicing the untrimmed one, which can cut inside a character
/// when the piece begins with white space; `requires` leaves that out.
#[verifier::external_body]
fn compile_filter(dirs: &str) -> (r: Result<EnvFilter, ParseError>)
    requires
        pieces_start_clean(dirs@),
    ensures
        r is Ok <==> filter_accepts(dirs@),
{
    EnvFilter::try_new(dirs)
}

/// The kinds of filesystem event the watcher tells apart.
#[derive(Clone, Copy, Debug, PartialEq, Eq, Structural)]
pub enum FsEventKind {
    /// A file opened for writing was closed.
    CloseWrite,
    Create,
    Remove,
    /// Anything else, a bare modification included.
    Other,
}

/// A filesystem event: its kind and the file name of each affected path
/// (`None` where a path has no name that is valid UTF-8).
pub struct FsEvent {
    pub kind: FsEventKind,
    pub file_names: Vec<Option<String>>,
}

/// A path whose file name is `name`.
pub open spec fn is_named(file_name: Option<String>, name: Seq<char>) -> bool {
    file_name matches Some(n) && n@ == name
}

/// One of the event's paths is the file `name`.
pub open spec fn names_file(ev: FsEvent, name: Seq<char>) -> bool {
    exists|i: int| 0 <= i < ev.file_names@.len() && is_named(#[trigger] ev.file_names@[i], name)
}

/// An event that must wake the reload task: it concerns the control file,
/// and is a close after write, a creation or a removal.
pub open spec fn triggers_reload(ev: FsEvent, name: Seq<char>) -> bool {
    &&& names_file(ev, name)
    &&& !(ev.kind is Other)
}

/// Whether filesystem event `ev` must wake the reload task for the control
/// file named `control_name`.
pub fn is_reload_trigger(ev: &FsEvent, control_name: &str) -> (r: bool)
    ensures
        r == triggers_reload(*ev, control_name@),
{
    let relevant = match ev.kind {
        FsEventKind::CloseWrite | FsEventKind::Create | FsEventKind::Remove => true,
        FsEventKind::Other => false,
    };
    if !relevant {
        return false;
    }
    let mut i: usize = 0;
    while i < ev.file_names.len()
        invariant
            !(ev.kind is Other),
            i <= ev.file_names@.len(),
            forall|k: int| 0 <= k < i ==> !is_named(#[trigger] ev.file_names@[k], control_name@),
        decreases ev.file_names@.len() - i,
    {
        match &ev.file_names[i] {
            Some(n) => {
                if string_eq(n.as_str(), control_name) {
                    assert(is_named(ev.file_names@[i as int], control_name@));
                    return true;
                }
            },
            None => {},
        }
        i = i + 1;
    }
    false
}

/// Whether no comma-separated piece of `d` begins with white space.
pub fn starts_pieces_cleanly(d: &str) -> (r: bool)
    ensures
        r == pieces_start_clean(d@),
{
    let n = d.unicode_len();
    if n > 0 && white_space(d.get_char(0)) {
        return false;
    }
    let mut i: usize = 0;
    while i < n && i + 1 < n
        invariant
            i <= n,
            n == d@.len(),
            n > 0 ==> !is_white_space(d@[0]),
            forall|k: int|
                0 <= k < i && k + 1 < n && #[trigger] d@[k] == ',' ==> !is_white_space(d@[k + 1]),
        decreases n - i,
    {
        if d.get_char(i) == ',' && white_space(d.get_char(i + 1)) {
            return false;
        }
        i = i + 1;
    }
    true
}

/// What reading the control file gave.
pub enum FileRead {
    /// The file does not exist.
    Missing,
    /// Reading failed for another reason; the message.
    Failed(String),
    /// The file's full text.
    Text(String),
}

/// Why a wake-up leaves the filter as it is.
#[derive(Clone, Debug, PartialEq)]
pub enum KeepReason {
    /// No control file: nothing is asked for.
    NoFile,
    /// The file could not be read; the message.
    Unreadable(String),
    /// The file holds only blank lines and comments.
    Blank,
}

/// What the reload task does after one read of the control file.
pub enum ReloadStep {
    /// Leave the active filter in place.
    Keep(KeepReason),
    /// Swap `filter`, compiled from `directive`, in as the active filter.
    Install { directive: String, filter: EnvFilter },
    /// `directive` does not compile; the previous filter stays.
    Reject { directive: String, error: ParseError },
    /// A comma-separated piece of `directive` begins with white space, which
    /// the filter parser cannot take; the previous filter stays.
    Unparsable { directive: String },
}

/// The step owed for a read of the control file.
pub open spec fn answers(read: FileRead, step: ReloadStep) -> bool {
    match read {
        FileRead::Missing => step == ReloadStep::Keep(KeepReason::NoFile),
        FileRead::Failed(m) => step matches ReloadStep::Keep(KeepReason::Unreadable(m2)) && m2@
            == m@,
        FileRead::Text(t) => {
            let d = directive_of(t@);
            if d.len() == 0 {
                step == ReloadStep::Keep(KeepReason::Blank)
            } else if !pieces_start_clean(d) {
                step matches ReloadStep::Unparsable { directive } && directive@ == d
            } else if filter_accepts(d) {
                step matches ReloadStep::Install { directive, .. } && directive@ == d
            } else {
                step matches ReloadStep::Reject { directive, .. } && directive@ == d
            }
        },
    }
}

/// The reload task's own state: the directive last installed, and how many
/// times the control file has been read.
pub struct Reloader {
    pub active: String,
    pub reads: u64,
}

impl Reloader {
    /// A reload task whose filter was set at startup from `initial`.
    pub fn new(initial: String) -> (r: Reloader)
        ensures
            r.active == initial,
            r.reads == 0,
    {
        Reloader { active: initial, reads: 0 }
    }

    /// Decides what one read of the control file leads to. Only a later
    /// `installed` changes the active directive.
    pub fn on_read(&mut self, read: FileRead) -> (step: ReloadStep)
        ensures
            answers(read, step),
            final(self).active == old(self).active,
            final(self).reads == if old(self).reads < u64::MAX {
                (old(self).reads + 1) as u64
            } else {
                old(self).reads
            },
    {
        if self.reads < u64::MAX {
            self.reads = self.reads + 1;
        }
        match read {
            FileRead::Missing => ReloadStep::Keep(KeepReason::NoFile),
            FileRead::Failed(m) => ReloadStep::Keep(KeepReason::Unreadable(m)),
            FileRead::Text(t) => {
                let d = directive(t.as_str());
                if d.unicode_len() == 0 {
                    ReloadStep::Keep(KeepReason::Blank)
                } else if !starts_pieces_cleanly(d.as_str()) {
                    ReloadStep::Unparsable { directive: d }
                } else {
                    match compile_filter(d.as_str()) {
                        Ok(filter) => ReloadStep::Install { directive: d, filter },
                        Err(error) => ReloadStep::Reject { directive: d, error },
                    }
                }
            },
        }
    }

    /// Records that `directive` is now the active filter.
    pub fn installed(&mut self, directive: String)
        ensures
            final(self).active == directive,
            final(self).reads == old(self).reads,
    {
        self.active = directive;
    }
}

proof fn lemma_silent_lines_join_empty(lines: Seq<Seq<char>>)
    requires
        forall|k: int| 0 <= k < lines.len() ==> is_silent(#[trigger] lines[k]),
    ensures
        joined(lines) == Seq::<char>::empty(),
    decreases lines.len(),
{
    if lines.len() > 0 {
        assert(is_silent(lines[lines.len() - 1]));
        lemma_silent_lines_join_empty(lines.drop_last());
        assert(joined(lines) =~= Seq::<char>::empty());
    }
}

/// Control-file content made only of blank lines and comments asks for no
/// directive: the read leaves the filter in place, with a warning.
pub proof fn comments_only_keep_filter(content: String, step: ReloadStep)
    requires
        forall|k: int| 0 <= k < lines_of(content@).len() ==> is_silent(#[trigger] lines_of(content@)[k]),
        answers(FileRead::Text(content), step),
    ensures
        directive_of(content@) == Seq::<char>::empty(),
        step == ReloadStep::Keep(KeepReason::Blank),
{
    lemma_silent_lines_join_empty(lines_of(content@));
}

/// A read of content holding a valid directive installs exactly that
/// directive, whatever was active before.
pub proof fn edited_directive_installs(content: String, step: ReloadStep)
    requires
        directive_of(content@).len() > 0,
        pieces_start_clean(directive_of(content@)),
        filter_accepts(directive_of(content@)),
        answers(FileRead::Text(content), step),
    ensures
        step matches ReloadStep::Install { directive, .. } && directive@ == directive_of(content@),
{
}

/// An event on a file of another name never wakes the reload task, so the
/// control file is not read on its account.
pub proof fn other_file_never_triggers(ev: FsEvent, name: Seq<char>)
    requires
        forall|i: int| 0 <= i < ev.file_names@.len() ==> !is_named(#[trigger] ev.file_names@[i], name),
    ensures
        !triggers_reload(ev, name),
{
}

/// Removing the control file and creating it anew with valid content: both
/// events wake the reload task; the read after the removal keeps the filter
/// and the read after the creation installs the new content's directive. The
/// last read sees the latest content however the two wake-ups coalesce.
pub proof fn recreated_file_takes_effect(
    name: Seq<char>,
    removed: FsEvent,
    created: FsEvent,
    content: String,
    after_remove: ReloadStep,
    after_create: ReloadStep,
)
    requires
        removed.kind == FsEventKind::Remove,
        names_file(removed, name),
        created.kind == FsEventKind::Create,
        names_file(created, name),
        directive_of(content@).len() > 0,
        pieces_start_clean(directive_of(content@)),
        filter_accepts(directive_of(content@)),
        answers(FileRead::Missing, after_remove),
        answers(FileRead::Text(content), after_create),
    ensures
        triggers_reload(removed, name),
        triggers_reload(created, name),
        after_remove == ReloadStep::Keep(KeepReason::NoFile),
        after_create matches ReloadStep::Install { directive, .. } && directive@ == directive_of(
            content@,
        ),
{
}

} // verus!
