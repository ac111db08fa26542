use crate::cli::Commands;
use crate::config::{tag_view, Fossil, FossilVersion};
use crate::utils::{
    all_digits, digits_value, is_digit, parse_decimal, pop_char, push_str, trim_text, trimmed,
};
use std::collections::HashSet;
use vstd::prelude::*;

verus! {

broadcast use vstd::std_specs::hash::group_hash_axioms;

/// Whether keys move the cursor or edit a command line.
#[derive(Debug, Clone, Copy, PartialEq, Eq, Structural)]
pub enum AppMode {
    Normal,
    Command,
}

/// What the command line is for.
#[derive(Debug, Clone, Copy, PartialEq, Eq, Structural)]
pub enum CommandType {
    General,
    Bury,
    Dig,
}

/// One tracked file as a list shows it.
pub struct FossilDisplay {
    pub path: String,
    pub current_version: usize,
    pub total_versions: usize,
    pub tag_count: usize,
    pub preview: String,
}

/// How long after a refresh the data is refreshed again, in milliseconds.
pub const REFRESH_INTERVAL_MS: u64 = 1000;

/// The state of the interactive front end: the records shown, the cursor,
/// the selection, and the command line being edited.
pub struct App {
    pub fossils: Vec<Fossil>,
    pub cursor_idx: usize,
    pub select_fossils: HashSet<usize>,
    pub mode: AppMode,
    pub command_input: String,
    pub command_type: CommandType,
    pub should_quit: bool,
    pub status_message: Option<String>,
    pub last_refresh_ms: u64,
}

/// Strings seen through their views.
pub open spec fn strings_view(v: Seq<String>) -> Seq<Seq<char>> {
    v.map_values(|s: String| s@)
}

/// The paths of the records among the first `n` whose index is selected, in
/// index order.
pub open spec fn selected_upto(fossils: Seq<Fossil>, sel: Set<usize>, n: nat) -> Seq<Seq<char>>
    decreases n,
{
    if n == 0 {
        Seq::empty()
    } else {
        let prev = selected_upto(fossils, sel, (n - 1) as nat);
        if sel.contains((n - 1) as usize) {
            prev.push(fossils[n - 1].path@)
        } else {
            prev
        }
    }
}

/// The number of versions of the first `n` records.
pub open spec fn versions_upto(fossils: Seq<Fossil>, n: nat) -> nat
    decreases n,
{
    if n == 0 {
        0
    } else {
        versions_upto(fossils, (n - 1) as nat) + fossils[n - 1].versions@.len()
    }
}

/// The number of versions among the first `n` that carry a tag.
pub open spec fn tagged_upto(versions: Seq<FossilVersion>, n: nat) -> nat
    decreases n,
{
    if n == 0 {
        0
    } else {
        tagged_upto(versions, (n - 1) as nat) + if versions[n - 1].tag is Some {
            1nat
        } else {
            0nat
        }
    }
}

/// The number of tagged versions of the first `n` records.
pub open spec fn tagged_in_upto(fossils: Seq<Fossil>, n: nat) -> nat
    decreases n,
{
    if n == 0 {
        0
    } else {
        tagged_in_upto(fossils, (n - 1) as nat) + tagged_upto(
            fossils[n - 1].versions@,
            fossils[n - 1].versions@.len(),
        )
    }
}

/// `n`, or the largest `usize` when it does not fit.
pub open spec fn saturated(n: nat) -> usize {
    if n > usize::MAX {
        usize::MAX
    } else {
        n as usize
    }
}

/// Whether `c` is a bury command with the given tag and files.
pub open spec fn is_bury(c: Commands, tag: Option<Seq<char>>, files: Seq<Seq<char>>) -> bool {
    match c {
        Commands::Bury { tag: t, files: f } => tag_view(t) == tag && strings_view(f@) == files,
        _ => false,
    }
}

/// Whether `c` is a dig command with the given tag, version and files.
pub open spec fn is_dig(
    c: Commands,
    tag: Option<Seq<char>>,
    version: Option<usize>,
    files: Seq<Seq<char>>,
) -> bool {
    match c {
        Commands::Dig { tag: t, version: v, files: f } => tag_view(t) == tag && v == version
            && strings_view(f@) == files,
        _ => false,
    }
}

/// Whether `c` is a track command with the given files.
pub open spec fn is_track(c: Commands, files: Seq<Seq<char>>) -> bool {
    match c {
        Commands::Track { files: f } => strings_view(f@) == files,
        _ => false,
    }
}

/// Whether `c` is an untrack command with the given files.
pub open spec fn is_untrack(c: Commands, files: Seq<Seq<char>>) -> bool {
    match c {
        Commands::Untrack { files: f } => strings_view(f@) == files,
        _ => false,
    }
}

/// Whether a status message is present and reads `text`.
pub open spec fn status_is(status: Option<String>, text: Seq<char>) -> bool {
    status is Some && status->Some_0@ == text
}

/// The tag typed for a burial, already trimmed: none when blank.
pub fn tag_from_input(input: String) -> (r: Option<String>)
    ensures
        input@.len() == 0 ==> r is None,
        input@.len() > 0 ==> r == Some(input),
{
    if input.as_str().is_empty() {
        None
    } else {
        Some(input)
    }
}

/// What a dig line, already trimmed, asks for: nothing when blank, a version
/// number when it is all digits, a tag otherwise; `None` for a number too
/// large to be a version.
pub fn dig_target_from_input(input: String) -> (r: Option<(Option<String>, Option<usize>)>)
    ensures
        input@.len() == 0 ==> r == Some((None::<String>, None::<usize>)),
        input@.len() > 0 && (forall|i: int| 0 <= i < input@.len() ==> is_digit(#[trigger] input@[i]))
            ==> if digits_value(input@) <= usize::MAX {
            r == Some((None::<String>, Some(digits_value(input@) as usize)))
        } else {
            r is None
        },
        input@.len() > 0 && !(forall|i: int| 0 <= i < input@.len() ==> is_digit(#[trigger] input@[i]))
            ==> r == Some((Some(input), None::<usize>)),
{
    if input.as_str().is_empty() {
        Some((None, None))
    } else if all_digits(input.as_str()) {
        match parse_decimal(input.as_str()) {
            Some(v) => Some((None, Some(v))),
            None => None,
        }
    } else {
        Some((Some(input), None))
    }
}

fn text(s: &str) -> (r: String)
    ensures
        r@ == s@,
{
    s.to_owned()
}

impl App {
    /// The paths of the selected records, in index order.
    pub open spec fn selected_paths(&self) -> Seq<Seq<char>> {
        selected_upto(self.fossils@, self.select_fossils@, self.fossils@.len())
    }

    /// The state after leaving the command line: normal mode, empty input.
    pub open spec fn exited(self, prev: App) -> bool {
        &&& self.mode == AppMode::Normal
        &&& self.command_input@ == Seq::<char>::empty()
        &&& self.command_type == CommandType::General
        &&& self.fossils == prev.fossils
        &&& self.cursor_idx == prev.cursor_idx
        &&& self.select_fossils == prev.select_fossils
        &&& self.should_quit == prev.should_quit
        &&& self.last_refresh_ms == prev.last_refresh_ms
    }

    /// The state after opening the command line for `kind`.
    pub open spec fn entered(self, prev: App, kind: CommandType) -> bool {
        &&& self.mode == AppMode::Command
        &&& self.command_input@ == Seq::<char>::empty()
        &&& self.command_type == kind
        &&& self.fossils == prev.fossils
        &&& self.cursor_idx == prev.cursor_idx
        &&& self.select_fossils == prev.select_fossils
        &&& self.should_quit == prev.should_quit
        &&& self.status_message == prev.status_message
        &&& self.last_refresh_ms == prev.last_refresh_ms
    }

    /// A fresh front end showing `fossils`, refreshed at `now_ms`.
    pub fn new(fossils: Vec<Fossil>, now_ms: u64) -> (r: App)
        ensures
            r.fossils == fossils,
            r.cursor_idx == 0,
            r.select_fossils@ == Set::<usize>::empty(),
            r.mode == AppMode::Normal,
            r.command_input@ == Seq::<char>::empty(),
            r.command_type == CommandType::General,
            !r.should_quit,
            r.status_message is None,
            r.last_refresh_ms == now_ms,
    {
        App {
            fossils,
            cursor_idx: 0,
            select_fossils: HashSet::new(),
            mode: AppMode::Normal,
            command_input: String::new(),
            command_type: CommandType::General,
            should_quit: false,
            status_message: None,
            last_refresh_ms: now_ms,
        }
    }

    /// Shows freshly loaded records, when loading succeeded, keeping the
    /// cursor and the selection within them.
    pub fn refresh_data(&mut self, loaded: Option<Vec<Fossil>>, now_ms: u64)
        ensures
            loaded is None ==> *final(self) == *old(self),
            loaded is Some ==> {
                let n = loaded->Some_0@.len();
                &&& final(self).fossils == loaded->Some_0
                &&& final(self).last_refresh_ms == now_ms
                &&& final(self).cursor_idx == if old(self).cursor_idx >= n {
                    if n == 0 {
                        0
                    } else {
                        (n - 1) as usize
                    }
                } else {
                    old(self).cursor_idx
                }
                &&& final(self).select_fossils@ == old(self).select_fossils@.filter(
                    |i: usize| i < n,
                )
                &&& final(self).mode == old(self).mode
                &&& final(self).command_input == old(self).command_input
                &&& final(self).command_type == old(self).command_type
                &&& final(self).should_quit == old(self).should_quit
                &&& final(self).status_message == old(self).status_message
            },
    {
        if let Some(new_fossils) = loaded {
            self.fossils = new_fossils;
            self.last_refresh_ms = now_ms;
            let n = self.fossils.len();
            if self.cursor_idx >= n {
                self.cursor_idx = n.saturating_sub(1);
            }
            let mut kept: HashSet<usize> = HashSet::new();
            let mut i: usize = 0;
            while i < n
                invariant
                    n == self.fossils@.len(),
                    i <= n,
                    self.select_fossils == old(self).select_fossils,
                    kept@ == old(self).select_fossils@.filter(|x: usize| x < i),
                decreases n - i,
            {
                if self.select_fossils.contains(&i) {
                    kept.insert(i);
                }
                i = i + 1;
                assert(kept@ =~= old(self).select_fossils@.filter(|x: usize| x < i));
            }
            self.select_fossils = kept;
        }
    }

    /// Whether enough time has passed since the last refresh.
    pub fn should_auto_refresh(&self, now_ms: u64) -> (r: bool)
        ensures
            r == (now_ms >= self.last_refresh_ms + REFRESH_INTERVAL_MS),
    {
        now_ms >= self.last_refresh_ms && now_ms - self.last_refresh_ms >= REFRESH_INTERVAL_MS
    }

    /// Moves the cursor one record up, stopping at the first.
    pub fn move_up(&mut self)
        ensures
            *final(self) == (App {
                cursor_idx: if old(self).cursor_idx > 0 {
                    (old(self).cursor_idx - 1) as usize
                } else {
                    old(self).cursor_idx
                },
                ..*old(self)
            }),
    {
        if self.cursor_idx > 0 {
            self.cursor_idx = self.cursor_idx - 1;
        }
    }

    /// Moves the cursor one record down, stopping at the last.
    pub fn move_down(&mut self)
        ensures
            *final(self) == (App {
                cursor_idx: if old(self).cursor_idx + 1 < old(self).fossils@.len() {
                    (old(self).cursor_idx + 1) as usize
                } else {
                    old(self).cursor_idx
                },
                ..*old(self)
            }),
    {
        if self.cursor_idx < self.fossils.len().saturating_sub(1) {
            self.cursor_idx = self.cursor_idx + 1;
        }
    }

    /// Selects the record under the cursor, or deselects it when it was
    /// selected.
    pub fn select_fossil(&mut self)
        ensures
            final(self).select_fossils@ == if old(self).select_fossils@.contains(old(self).cursor_idx) {
                old(self).select_fossils@.remove(old(self).cursor_idx)
            } else {
                old(self).select_fossils@.insert(old(self).cursor_idx)
            },
            final(self).fossils == old(self).fossils,
            final(self).cursor_idx == old(self).cursor_idx,
            final(self).mode == old(self).mode,
            final(self).command_input == old(self).command_input,
            final(self).command_type == old(self).command_type,
            final(self).should_quit == old(self).should_quit,
            final(self).status_message == old(self).status_message,
            final(self).last_refresh_ms == old(self).last_refresh_ms,
    {
        let c = self.cursor_idx;
        if !self.select_fossils.insert(c) {
            self.select_fossils.remove(&c);
        }
    }

    /// Opens the command line for a general command.
    pub fn enter_command_mode(&mut self)
        ensures
            final(self).entered(*old(self), CommandType::General),
    {
        self.mode = AppMode::Command;
        self.command_input = String::new();
        self.command_type = CommandType::General;
    }

    /// Opens the command line for the tag of a burial.
    pub fn enter_bury_mode(&mut self)
        ensures
            final(self).entered(*old(self), CommandType::Bury),
    {
        self.mode = AppMode::Command;
        self.command_input = String::new();
        self.command_type = CommandType::Bury;
    }

    /// Opens the command line for the tag or number to dig to.
    pub fn enter_dig_mode(&mut self)
        ensures
            final(self).entered(*old(self), CommandType::Dig),
    {
        self.mode = AppMode::Command;
        self.command_input = String::new();
        self.command_type = CommandType::Dig;
    }

    /// Leaves the command line.
    pub fn exit_command_mode(&mut self)
        ensures
            final(self).exited(*old(self)),
            final(self).status_message == old(self).status_message,
    {
        self.mode = AppMode::Normal;
        self.command_input = String::new();
        self.command_type = CommandType::General;
    }

    /// Types a character on the command line, when it is open.
    pub fn add_char_to_command(&mut self, c: char)
        ensures
            final(self).command_input@ == if old(self).mode == AppMode::Command {
                old(self).command_input@.push(c)
            } else {
                old(self).command_input@
            },
            final(self).mode == old(self).mode,
            final(self).command_type == old(self).command_type,
            final(self).fossils == old(self).fossils,
            final(self).cursor_idx == old(self).cursor_idx,
            final(self).select_fossils == old(self).select_fossils,
            final(self).status_message == old(self).status_message,
    {
        if self.mode == AppMode::Command {
            push_char_to(&mut self.command_input, c);
        }
    }

    /// Erases the last character of the command line, when it is open.
    pub fn remove_char_from_command(&mut self)
        ensures
            final(self).command_input@ == if old(self).mode == AppMode::Command
                && old(self).command_input@.len() > 0 {
                old(self).command_input@.drop_last()
            } else {
                old(self).command_input@
            },
            final(self).mode == old(self).mode,
            final(self).command_type == old(self).command_type,
            final(self).fossils == old(self).fossils,
            final(self).cursor_idx == old(self).cursor_idx,
            final(self).select_fossils == old(self).select_fossils,
            final(self).status_message == old(self).status_message,
    {
        if self.mode == AppMode::Command {
            let _ = pop_char(&mut self.command_input);
        }
    }

    /// The paths of the selected records, in index order.
    pub fn get_selected_file_paths(&self) -> (r: Vec<String>)
        ensures
            strings_view(r@) == self.selected_paths(),
    {
        let mut paths: Vec<String> = Vec::new();
        let mut i: usize = 0;
        while i < self.fossils.len()
            invariant
                i <= self.fossils@.len(),
                strings_view(paths@) == selected_upto(self.fossils@, self.select_fossils@, i as nat),
            decreases self.fossils@.len() - i,
        {
            if self.select_fossils.contains(&i) {
                paths.push(self.fossils[i].path.clone());
            }
            i = i + 1;
            assert(strings_view(paths@) =~= selected_upto(self.fossils@, self.select_fossils@, i as nat));
        }
        paths
    }

    /// The command that buries the selected records under `tag`.
    pub fn execute_bury_with_tag(&self, tag: Option<String>) -> (r: Commands)
        ensures
            is_bury(r, tag_view(tag), self.selected_paths()),
    {
        let files = self.get_selected_file_paths();
        Commands::Bury { tag, files }
    }

    /// The command that digs the selected records to `tag` or `version`.
    pub fn execute_dig_with_params(&self, tag: Option<String>, version: Option<usize>) -> (r: Commands)
        ensures
            is_dig(r, tag_view(tag), version, self.selected_paths()),
    {
        let files = self.get_selected_file_paths();
        Commands::Dig { tag, version, files }
    }

    /// The command that brings every record to its newest version.
    pub fn execute_surface(&self) -> (r: Commands)
        ensures
            r == Commands::Surface,
    {
        Commands::Surface
    }

    /// The command that tracks the selected files; with none selected, a
    /// status message says so and there is no command.
    pub fn execute_track(&mut self) -> (r: Option<Commands>)
        ensures
            old(self).selected_paths().len() == 0 ==> r is None && status_is(
                final(self).status_message,
                "No files selected to track"@,
            ),
            old(self).selected_paths().len() > 0 ==> r is Some && is_track(
                r->Some_0,
                old(self).selected_paths(),
            ) && *final(self) == *old(self),
            final(self).fossils == old(self).fossils,
            final(self).cursor_idx == old(self).cursor_idx,
            final(self).select_fossils == old(self).select_fossils,
            final(self).mode == old(self).mode,
            final(self).command_input == old(self).command_input,
            final(self).command_type == old(self).command_type,
            final(self).should_quit == old(self).should_quit,
            final(self).last_refresh_ms == old(self).last_refresh_ms,
    {
        let files = self.get_selected_file_paths();
        if files.len() > 0 {
            Some(Commands::Track { files })
        } else {
            self.status_message = Some(text("No files selected to track"));
            None
        }
    }

    /// The command that untracks the selected files; with none selected, a
    /// status message says so and there is no command.
    pub fn execute_untrack(&mut self) -> (r: Option<Commands>)
        ensures
            old(self).selected_paths().len() == 0 ==> r is None && status_is(
                final(self).status_message,
                "No files selected to untrack"@,
            ),
            old(self).selected_paths().len() > 0 ==> r is Some && is_untrack(
                r->Some_0,
                old(self).selected_paths(),
            ) && *final(self) == *old(self),
            final(self).fossils == old(self).fossils,
            final(self).cursor_idx == old(self).cursor_idx,
            final(self).select_fossils == old(self).select_fossils,
            final(self).mode == old(self).mode,
            final(self).command_input == old(self).command_input,
            final(self).command_type == old(self).command_type,
            final(self).should_quit == old(self).should_quit,
            final(self).last_refresh_ms == old(self).last_refresh_ms,
    {
        let files = self.get_selected_file_paths();
        if files.len() > 0 {
            Some(Commands::Untrack { files })
        } else {
            self.status_message = Some(text("No files selected to untrack"));
            None
        }
    }

    /// Reports how a dispatched command went and shows the records loaded
    /// after it.
    pub fn execute_cli_command(
        &mut self,
        outcome: Result<(), String>,
        loaded: Option<Vec<Fossil>>,
        now_ms: u64,
    )
        ensures
            outcome is Ok ==> status_is(final(self).status_message, "Command executed successfully"@),
            outcome is Err ==> status_is(
                final(self).status_message,
                "Command failed: "@ + outcome->Err_0@,
            ),
            loaded is Some ==> final(self).fossils == loaded->Some_0,
            loaded is None ==> final(self).fossils == old(self).fossils,
            final(self).mode == old(self).mode,
    {
        self.status_message = match outcome {
            Ok(()) => Some(text("Command executed successfully")),
            Err(e) => {
                let mut m = text("Command failed: ");
                push_str(&mut m, e.as_str());
                Some(m)
            },
        };
        self.refresh_data(loaded, now_ms);
    }

    /// Runs what the command line holds: a burial under the typed tag (none
    /// when blank), or a dig to the typed version number or tag. The command
    /// line is closed either way.
    pub fn execute_command(&mut self) -> (r: Option<Commands>)
        ensures
            old(self).mode != AppMode::Command ==> r is None && *final(self) == *old(self),
            old(self).mode == AppMode::Command ==> final(self).exited(*old(self)),
            old(self).mode == AppMode::Command && old(self).command_type == CommandType::General
                ==> r is None && final(self).status_message == old(self).status_message,
            old(self).mode == AppMode::Command && old(self).command_type == CommandType::Bury ==> {
                let t = trimmed(old(self).command_input@);
                &&& r is Some
                &&& is_bury(
                    r->Some_0,
                    if t.len() == 0 {
                        None
                    } else {
                        Some(t)
                    },
                    old(self).selected_paths(),
                )
                &&& final(self).status_message == old(self).status_message
            },
            old(self).mode == AppMode::Command && old(self).command_type == CommandType::Dig ==> {
                let t = trimmed(old(self).command_input@);
                let files = old(self).selected_paths();
                if t.len() == 0 {
                    r is Some && is_dig(r->Some_0, None, None, files)
                } else if forall|i: int| 0 <= i < t.len() ==> is_digit(#[trigger] t[i]) {
                    if digits_value(t) <= usize::MAX {
                        r is Some && is_dig(r->Some_0, None, Some(digits_value(t) as usize), files)
                    } else {
                        r is None && status_is(final(self).status_message, "Invalid version number"@)
                    }
                } else {
                    r is Some && is_dig(r->Some_0, Some(t), None, files)
                }
            },
    {
        if self.mode != AppMode::Command {
            return None;
        }
        match self.command_type {
            CommandType::General => {
                self.exit_command_mode();
                None
            },
            CommandType::Bury => {
                let tag = tag_from_input(trim_text(self.command_input.as_str()));
                self.exit_command_mode();
                Some(self.execute_bury_with_tag(tag))
            },
            CommandType::Dig => {
                let target = dig_target_from_input(trim_text(self.command_input.as_str()));
                self.exit_command_mode();
                match target {
                    Some((tag, version)) => Some(self.execute_dig_with_params(tag, version)),
                    None => {
                        self.status_message = Some(text("Invalid version number"));
                        None
                    },
                }
            },
        }
    }

    /// Clears the status message.
    pub fn clear_status(&mut self)
        ensures
            *final(self) == (App { status_message: None, ..*old(self) }),
    {
        self.status_message = None;
    }

    /// Asks the front end to stop.
    pub fn quit(&mut self)
        ensures
            *final(self) == (App { should_quit: true, ..*old(self) }),
    {
        self.should_quit = true;
    }

    /// The number of records shown.
    pub fn get_total_fossils(&self) -> (r: usize)
        ensures
            r == self.fossils@.len(),
    {
        self.fossils.len()
    }

    /// The number of versions over all records shown, saturating.
    pub fn get_total_versions(&self) -> (r: usize)
        ensures
            r == saturated(versions_upto(self.fossils@, self.fossils@.len())),
    {
        let mut total: usize = 0;
        let mut i: usize = 0;
        while i < self.fossils.len()
            invariant
                i <= self.fossils@.len(),
                total == saturated(versions_upto(self.fossils@, i as nat)),
            decreases self.fossils@.len() - i,
        {
            total = total.saturating_add(self.fossils[i].versions.len());
            i = i + 1;
        }
        total
    }

    /// The number of tagged versions over all records shown, saturating.
    pub fn get_tagged_versions_count(&self) -> (r: usize)
        ensures
            r == saturated(tagged_in_upto(self.fossils@, self.fossils@.len())),
    {
        let mut total: usize = 0;
        let mut i: usize = 0;
        while i < self.fossils.len()
            invariant
                i <= self.fossils@.len(),
                total == saturated(tagged_in_upto(self.fossils@, i as nat)),
            decreases self.fossils@.len() - i,
        {
            let versions = &self.fossils[i].versions;
            let mut count: usize = 0;
            let mut j: usize = 0;
            while j < versions.len()
                invariant
                    versions@ == self.fossils@[i as int].versions@,
                    j <= versions@.len(),
                    count == tagged_upto(versions@, j as nat),
                    count <= j,
                decreases versions@.len() - j,
            {
                if versions[j].tag.is_some() {
                    count = count + 1;
                }
                j = j + 1;
            }
            total = total.saturating_add(count);
            i = i + 1;
        }
        total
    }
}

fn push_char_to(s: &mut String, c: char)
    ensures
        final(s)@ == old(s)@.push(c),
{
    crate::utils::push_char(s, c)
}

} // verus!
