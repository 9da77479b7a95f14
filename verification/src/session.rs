//! The editor session and its transitions.
//!
//! A `Session` is the one piece of mutable state of the editor: the text
//! buffer, the optionally bound file path, the display font size and the
//! auto-save timer. Each user command is a method that either changes the
//! state directly or, where the host must touch the disk or show a dialog,
//! returns the request to perform and later receives the outcome.
//!
//! Font sizes are carried in tenths of a point, so that the slider range
//! 8.0 to 40.0 points becomes the integer range 80 to 400 and the default
//! 14.0 points becomes 140. Times are carried as whole seconds on a
//! monotone clock that starts at zero when the session is created.

use vstd::prelude::*;

verus! {

/// Smallest font size, in tenths of a point.
pub const FONT_MIN_TENTHS: u32 = 80;

/// Largest font size, in tenths of a point.
pub const FONT_MAX_TENTHS: u32 = 400;

/// Font size a fresh session starts with and reset restores, in tenths of a
/// point.
pub const FONT_DEFAULT_TENTHS: u32 = 140;

/// Seconds that must have passed since the last auto-save check before the
/// next one acts.
pub const AUTO_SAVE_SECS: u64 = 30;

/// The mathematical value of a session: the same fields, with the strings
/// read as character sequences.
pub ghost struct SessionSpec {
    pub content: Seq<char>,
    pub current_file: Option<Seq<char>>,
    pub font_size_tenths: int,
    pub last_save: int,
}

/// The editor session: one text buffer, at most one bound file.
pub struct Session {
    /// The full text buffer.
    pub content: String,
    /// The path of the file the buffer is bound to; `None` while the buffer
    /// is untitled.
    pub current_file: Option<String>,
    /// The display font size, in tenths of a point.
    pub font_size_tenths: u32,
    /// The clock reading, in seconds, of the last auto-save check that found
    /// the threshold passed (or of the session start).
    pub last_save: u64,
}

impl View for Session {
    type V = SessionSpec;

    open spec fn view(&self) -> SessionSpec {
        SessionSpec {
            content: self.content@,
            current_file: match self.current_file {
                Option::Some(p) => Option::Some(p@),
                Option::None => Option::None,
            },
            font_size_tenths: self.font_size_tenths as int,
            last_save: self.last_save as int,
        }
    }
}

impl Session {
    /// The session invariant: the font size always lies in the slider range.
    pub open spec fn wf(&self) -> bool {
        FONT_MIN_TENTHS <= self.font_size_tenths <= FONT_MAX_TENTHS
    }

    /// A fresh session: empty buffer, no bound file, default font size, the
    /// timer at the start of the clock.
    pub fn new() -> (s: Session)
        ensures
            s@.content == Seq::<char>::empty(),
            s@.current_file is None,
            s@.font_size_tenths == FONT_DEFAULT_TENTHS,
            s@.last_save == 0,
            s.wf(),
    {
        Session {
            content: String::new(),
            current_file: None,
            font_size_tenths: FONT_DEFAULT_TENTHS,
            last_save: 0,
        }
    }
}

/// A request to store text on disk: the host writes `text` to `path` and
/// reports whether the write succeeded.
pub struct WriteRequest {
    pub path: String,
    pub text: String,
}

/// What the save command asks of the host: either write the buffer to the
/// already bound path, or — with no file bound yet — run the save-as flow,
/// prompting for a destination first.
pub enum SaveAction {
    Write(WriteRequest),
    PromptSaveAs,
}

/// The character sequences of an optional owned string.
pub open spec fn opt_text_view(o: Option<String>) -> Option<Seq<char>> {
    match o {
        Option::Some(t) => Option::Some(t@),
        Option::None => Option::None,
    }
}

/// New: the buffer empties and the file binding is dropped; font size and
/// timer keep their values.
pub open spec fn spec_new_file(s: SessionSpec) -> SessionSpec {
    SessionSpec { content: Seq::<char>::empty(), current_file: Option::None, ..s }
}

/// Open, given the picked path and the outcome of reading it: a successful
/// read replaces the buffer and binds the path; a failed read (or a file
/// that is not text) changes nothing.
pub open spec fn spec_open(s: SessionSpec, path: Seq<char>, read: Option<Seq<char>>) -> SessionSpec {
    match read {
        Option::Some(t) => SessionSpec { content: t, current_file: Option::Some(path), ..s },
        Option::None => s,
    }
}

/// Save-as, given the chosen path and the outcome of writing to it: the path
/// is bound only when the write succeeded; the buffer never changes.
pub open spec fn spec_save_as(s: SessionSpec, path: Seq<char>, write_ok: bool) -> SessionSpec {
    if write_ok {
        SessionSpec { current_file: Option::Some(path), ..s }
    } else {
        s
    }
}

/// Save: with a file bound, the state does not change (the buffer is merely
/// written out, and a failed write is absorbed silently); with no file
/// bound, save is the save-as transition on the chosen path.
pub open spec fn spec_save(s: SessionSpec, path: Seq<char>, write_ok: bool) -> SessionSpec {
    match s.current_file {
        Option::Some(_) => s,
        Option::None => spec_save_as(s, path, write_ok),
    }
}

/// An edit replaces the buffer wholesale; nothing else moves.
pub open spec fn spec_set_content(s: SessionSpec, text: Seq<char>) -> SessionSpec {
    SessionSpec { content: text, ..s }
}

/// A requested font size, clamped into the slider range.
pub open spec fn spec_clamp_font(t: int) -> int {
    if t < FONT_MIN_TENTHS {
        FONT_MIN_TENTHS as int
    } else if t > FONT_MAX_TENTHS {
        FONT_MAX_TENTHS as int
    } else {
        t
    }
}

/// Setting the font size clamps the request into the slider range.
pub open spec fn spec_set_font(s: SessionSpec, t: int) -> SessionSpec {
    SessionSpec { font_size_tenths: spec_clamp_font(t), ..s }
}

/// Resetting the font size restores exactly the default.
pub open spec fn spec_reset_font(s: SessionSpec) -> SessionSpec {
    SessionSpec { font_size_tenths: FONT_DEFAULT_TENTHS as int, ..s }
}

/// Whether an auto-save check at clock reading `now` finds the threshold
/// passed: strictly more than the threshold has elapsed since the last
/// reset.
pub open spec fn spec_tick_due(s: SessionSpec, now: int) -> bool {
    now - s.last_save > AUTO_SAVE_SECS
}

/// The auto-save check: once due, the timer resets to `now` whether or not
/// anything is written; everything else stays as it is.
pub open spec fn spec_tick(s: SessionSpec, now: int) -> SessionSpec {
    if spec_tick_due(s, now) {
        SessionSpec { last_save: now, ..s }
    } else {
        s
    }
}

/// What a due auto-save check asks the host to write: the current buffer to
/// the bound path — and nothing at all while no file is bound or the check
/// is not yet due.
pub open spec fn spec_tick_request(s: SessionSpec, now: int) -> Option<(Seq<char>, Seq<char>)> {
    if spec_tick_due(s, now) {
        match s.current_file {
            Option::Some(p) => Option::Some((p, s.content)),
            Option::None => Option::None,
        }
    } else {
        Option::None
    }
}

impl Session {
    /// New: discard the buffer and the file binding, keeping font size and
    /// timer. Unsaved edits are lost without a prompt.
    pub fn new_file(&mut self)
        ensures
            final(self)@ == spec_new_file(old(self)@),
    {
        self.content = String::new();
        self.current_file = None;
    }

    /// Open: the host has run the file picker (`path` is the picked file)
    /// and tried to read it as text; `read` is the text on success and
    /// `None` on any failure. A cancelled picker never reaches this call.
    pub fn open_file(&mut self, path: String, read: Option<String>)
        ensures
            final(self)@ == spec_open(old(self)@, path@, opt_text_view(read)),
    {
        match read {
            Some(text) => {
                self.content = text;
                self.current_file = Some(path);
            },
            None => {},
        }
    }

    /// Save: with a file bound, ask the host to write the buffer there (a
    /// failed write is absorbed silently and changes nothing); otherwise ask
    /// it to run the save-as flow.
    pub fn save_file(&self) -> (r: SaveAction)
        ensures
            (match self.current_file {
                Option::Some(p) => r matches SaveAction::Write(w) && w.path@ == p@ && w.text@
                    == self.content@,
                Option::None => r is PromptSaveAs,
            }),
    {
        match &self.current_file {
            Some(p) => SaveAction::Write(
                WriteRequest { path: p.clone(), text: self.content.clone() },
            ),
            None => SaveAction::PromptSaveAs,
        }
    }

    /// The write a save-as performs once the user has chosen `path`: the
    /// current buffer, to that path.
    pub fn save_as_request(&self, path: String) -> (w: WriteRequest)
        ensures
            w.path@ == path@,
            w.text@ == self.content@,
    {
        WriteRequest { path, text: self.content.clone() }
    }

    /// Save-as, after the host has written the buffer to the chosen `path`:
    /// bind the path if and only if the write succeeded. A cancelled chooser
    /// never reaches this call.
    pub fn save_as(&mut self, path: String, write_ok: bool)
        ensures
            final(self)@ == spec_save_as(old(self)@, path@, write_ok),
    {
        if write_ok {
            self.current_file = Some(path);
        }
    }

    /// An edit from the text widget: the buffer becomes `text`.
    pub fn set_content(&mut self, text: String)
        ensures
            final(self)@ == spec_set_content(old(self)@, text@),
    {
        self.content = text;
    }

    /// Set the font size from the slider, clamped into the slider range.
    pub fn set_font_size(&mut self, tenths: u32)
        ensures
            final(self)@ == spec_set_font(old(self)@, tenths as int),
            final(self).wf(),
    {
        if tenths < FONT_MIN_TENTHS {
            self.font_size_tenths = FONT_MIN_TENTHS;
        } else if tenths > FONT_MAX_TENTHS {
            self.font_size_tenths = FONT_MAX_TENTHS;
        } else {
            self.font_size_tenths = tenths;
        }
    }

    /// Restore the default font size exactly.
    pub fn reset_font_size(&mut self)
        ensures
            final(self)@ == spec_reset_font(old(self)@),
            final(self).font_size_tenths == FONT_DEFAULT_TENTHS,
            final(self).wf(),
    {
        self.font_size_tenths = FONT_DEFAULT_TENTHS;
    }

    /// The auto-save check the host runs once per frame, with the clock
    /// reading `now` in seconds. Once the threshold has passed, the timer
    /// resets unconditionally, and the returned request — the current buffer
    /// to the bound path — is `Some` exactly when a file is bound: auto-save
    /// never creates a file for an untitled buffer. The host performs the
    /// returned write and absorbs its outcome silently.
    pub fn auto_save_tick(&mut self, now: u64) -> (r: Option<WriteRequest>)
        ensures
            final(self)@ == spec_tick(old(self)@, now as int),
            (match spec_tick_request(old(self)@, now as int) {
                Option::Some(pt) => r matches Some(w) && w.path@ == pt.0 && w.text@ == pt.1,
                Option::None => r is None,
            }),
    {
        if now > self.last_save && now - self.last_save > AUTO_SAVE_SECS {
            let r = match &self.current_file {
                Some(p) => Some(WriteRequest { path: p.clone(), text: self.content.clone() }),
                None => None,
            };
            self.last_save = now;
            r
        } else {
            None
        }
    }
}

/// New always yields an empty buffer and no bound file, whatever the prior
/// state; the font size and the timer are left alone.
pub proof fn lemma_new_file_resets(s: SessionSpec)
    ensures
        spec_new_file(s).content == Seq::<char>::empty(),
        spec_new_file(s).current_file is None,
        spec_new_file(s).font_size_tenths == s.font_size_tenths,
        spec_new_file(s).last_save == s.last_save,
{
}

/// Save on an unbound session is save-as: given the same chosen path and the
/// same write outcome, both end in the same state.
pub proof fn lemma_save_unbound_is_save_as(s: SessionSpec, path: Seq<char>, write_ok: bool)
    requires
        s.current_file is None,
    ensures
        spec_save(s, path, write_ok) == spec_save_as(s, path, write_ok),
{
}

/// The font size always stays in the slider range and every other transition
/// leaves it alone: setting clamps the request, reset restores exactly the
/// default, and the file and timer transitions never touch it.
pub proof fn lemma_font_size_always_clamped(
    s: SessionSpec,
    t: int,
    path: Seq<char>,
    read: Option<Seq<char>>,
    text: Seq<char>,
    write_ok: bool,
    now: int,
)
    ensures
        FONT_MIN_TENTHS <= spec_set_font(s, t).font_size_tenths <= FONT_MAX_TENTHS,
        spec_reset_font(s).font_size_tenths == FONT_DEFAULT_TENTHS,
        spec_new_file(s).font_size_tenths == s.font_size_tenths,
        spec_open(s, path, read).font_size_tenths == s.font_size_tenths,
        spec_save(s, path, write_ok).font_size_tenths == s.font_size_tenths,
        spec_save_as(s, path, write_ok).font_size_tenths == s.font_size_tenths,
        spec_set_content(s, text).font_size_tenths == s.font_size_tenths,
        spec_tick(s, now).font_size_tenths == s.font_size_tenths,
{
}

/// Auto-save never creates a file for an untitled buffer: a check on an
/// unbound session requests no write, and the session stays unbound with its
/// buffer intact — only the timer may move.
pub proof fn lemma_auto_save_unbound_writes_nothing(s: SessionSpec, now: int)
    requires
        s.current_file is None,
    ensures
        spec_tick_request(s, now) is None,
        spec_tick(s, now).current_file is None,
        spec_tick(s, now).content == s.content,
{
}

/// Once a file is bound, a due auto-save check writes the session's current
/// buffer to exactly the bound path, and no check ever rebinds or edits the
/// session.
pub proof fn lemma_auto_save_bound_writes_content(s: SessionSpec, p: Seq<char>, now: int)
    requires
        s.current_file == Option::Some(p),
    ensures
        spec_tick(s, now).current_file == Option::Some(p),
        spec_tick(s, now).content == s.content,
        spec_tick_due(s, now) ==> spec_tick_request(s, now) == Option::Some((p, s.content)),
        !spec_tick_due(s, now) ==> spec_tick_request(s, now) is None,
{
}

/// The library's half of the save/open round trip: the text a save hands to
/// the platform, fed back through open, is the buffer again and binds the
/// path it was read from. (The platform's half — that reading a stored file
/// returns the stored text unchanged — is the disk's to keep.)
pub proof fn lemma_saved_then_opened_round_trip(s: SessionSpec, t: SessionSpec, path: Seq<char>)
    ensures
        spec_open(t, path, Option::Some(s.content)).content == s.content,
        spec_open(t, path, Option::Some(s.content)).current_file == Option::Some(path),
{
}

/// A failed or refused read leaves the session exactly as it was.
pub proof fn lemma_failed_open_changes_nothing(s: SessionSpec, path: Seq<char>)
    ensures
        spec_open(s, path, Option::None) == s,
{
}

impl Default for Session {
    /// Same as `Session::new`.
    fn default() -> (s: Session)
        ensures
            s@.content == Seq::<char>::empty(),
            s@.current_file is None,
            s@.font_size_tenths == FONT_DEFAULT_TENTHS,
            s@.last_save == 0,
            s.wf(),
    {
        Session::new()
    }
}

} // verus!
