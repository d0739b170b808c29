//! One md array: what its sysfs attributes and its saved-position file hold,
//! what has to be written to start, resume or stop a check, and whether the
//! check running on it is ours.
//!
//! Nothing here touches a file.  The reading functions take the text that a
//! file held; the writing functions return the [`MdAction`]s to carry out, in
//! order.  A [`Transition`] also says whether the check belongs to us once
//! all of its actions were carried out, which [`MdDev::complete`] then records.
use vstd::prelude::*;
use crate::text::{
    append_chars, before_first, chars_of, decimal, decimal_string, find_char, is_digit,
    lemma_before_first, lemma_decimal, lemma_parse_decimal, lemma_trim_unchanged, parse_usize, parse_usize_in, trim, trim_bounds,
    trim_end, trim_end_len, trimmed_end,
};

verus! {

/// `"check"`
pub open spec fn check_word() -> Seq<char> {
    seq!['c', 'h', 'e', 'c', 'k']
}

/// `"idle"`
pub open spec fn idle_word() -> Seq<char> {
    seq!['i', 'd', 'l', 'e']
}

/// `"state_"`
pub open spec fn state_prefix() -> Seq<char> {
    seq!['s', 't', 'a', 't', 'e', '_']
}

/// `"\n"`
pub open spec fn newline() -> Seq<char> {
    seq!['\n']
}

/// The sysfs attributes of an md array that this library writes.
#[derive(Clone, Copy, Debug, PartialEq, Eq, Structural)]
pub enum MdAttr {
    /// `sync_action`: what the array is doing (`idle`, `check`, `resync`, ...).
    SyncAction,
    /// `sync_min`: the sector a check starts from.
    SyncMin,
}

/// One file operation for an md array.
#[derive(Debug)]
pub enum MdAction {
    /// Write `contents` to the sysfs attribute `attr` of the array.
    Write { attr: MdAttr, contents: String },
    /// Write `contents` to the array's saved-position file, creating the
    /// directory that holds it where it is missing.
    SaveState { contents: String },
    /// Remove the array's saved-position file, where there is one.
    ClearState,
}

/// An [`MdAction`], as values.
pub enum MdActionView {
    Write { attr: MdAttr, contents: Seq<char> },
    SaveState { contents: Seq<char> },
    ClearState,
}

impl View for MdAction {
    type V = MdActionView;

    open spec fn view(&self) -> MdActionView {
        match self {
            MdAction::Write { attr, contents } => MdActionView::Write {
                attr: *attr,
                contents: contents@,
            },
            MdAction::SaveState { contents } => MdActionView::SaveState { contents: contents@ },
            MdAction::ClearState => MdActionView::ClearState,
        }
    }
}

/// What writing `data` to the attribute `attr` amounts to: `data` and a newline.
pub open spec fn attr_write(attr: MdAttr, data: Seq<char>) -> MdActionView {
    MdActionView::Write { attr, contents: data + newline() }
}

/// Saving the position `pos`: its decimal text, with no newline.
pub open spec fn save_position(pos: nat) -> MdActionView {
    MdActionView::SaveState { contents: decimal(pos) }
}

/// The actions that resume a check from sector `pos`: set `sync_min`, then
/// set `sync_action` to `check`.
pub open spec fn resume_actions(pos: nat) -> Seq<MdActionView> {
    seq![attr_write(MdAttr::SyncMin, decimal(pos)), attr_write(MdAttr::SyncAction, check_word())]
}

/// The actions that stop a check that reached sector `completed` (or whose
/// progress could not be read, which saves 0): save the position, then set
/// `sync_action` to `idle`.
pub open spec fn stop_actions(completed: Option<usize>) -> Seq<MdActionView> {
    let pos: nat = match completed {
        Some(c) => c as nat,
        None => 0,
    };
    seq![save_position(pos), attr_write(MdAttr::SyncAction, idle_word())]
}

/// The position that a saved-position file holding `text` gives, where it is
/// one: the trimmed text, read as a number.
pub open spec fn saved_position(text: Seq<char>) -> Option<usize> {
    parse_usize(trim(text))
}

/// The sector that a `sync_completed` attribute holding `text` gives, where it
/// gives one: the text before the first `/` (`"123 / 456"`), trimmed, read as
/// a number.  `"none"` gives none.
pub open spec fn completed_position(text: Seq<char>) -> Option<usize> {
    parse_usize(trim(before_first(trim_end(text), '/')))
}

/// A sequence of actions, as values.
pub open spec fn actions_view(v: Seq<MdAction>) -> Seq<MdActionView> {
    v.map_values(|a: MdAction| a@)
}

/// What a [`Transition`] does to the check on an array.
#[derive(Clone, Copy, Debug, PartialEq, Eq, Structural)]
pub enum TransitionKind {
    /// Starts a new check, which is then ours.
    Start,
    /// Resumes a check from a saved position, which is then ours.
    Resume,
    /// Stops our check, which is then no longer ours.
    Stop,
}

/// Whether the check is ours once a transition of kind `k` was carried out.
pub open spec fn makes_ours(k: TransitionKind) -> bool {
    k != TransitionKind::Stop
}

/// The array once a transition of kind `k` was carried out on `v`: only
/// whether the check is ours changes.
pub open spec fn record(v: MdDevView, k: TransitionKind) -> MdDevView {
    MdDevView { started_by_us: makes_ours(k), ..v }
}

/// The array once the transitions of kinds `h` were carried out on `v`, in order.
pub open spec fn replay(v: MdDevView, h: Seq<TransitionKind>) -> MdDevView
    decreases h.len(),
{
    if h.len() == 0 {
        v
    } else {
        record(replay(v, h.drop_last()), h.last())
    }
}

/// The actions to carry out in order, and what they do to the check.
#[derive(Debug)]
pub struct Transition {
    pub actions: Vec<MdAction>,
    pub kind: TransitionKind,
}

/// What becomes of an array when we are done with it.
#[derive(Clone, Copy, Debug, PartialEq, Eq, Structural)]
pub enum Teardown {
    /// Leave it as it is.
    Nothing,
    /// The check is ours and still running: stop it and save its position.
    Stop,
    /// The check is ours and has ended: forget the saved position.
    ClearState,
}

/// Why a saved-position file could not be used.
#[derive(Clone, Copy, Debug, PartialEq, Eq, Structural)]
pub enum StateError {
    /// It does not hold a number.
    NotANumber,
    /// It could not be read, or does not hold text.
    Unreadable,
}

/// An md array, as found under `/sys/block`.
#[derive(Debug)]
pub struct MdDev {
    base_path: String,
    name: String,
    state_path: String,
    started_by_us: bool,
}

/// An md array, as values.
pub struct MdDevView {
    pub base_path: Seq<char>,
    pub name: Seq<char>,
    pub state_path: Seq<char>,
    pub started_by_us: bool,
}

impl View for MdDev {
    type V = MdDevView;

    closed spec fn view(&self) -> MdDevView {
        MdDevView {
            base_path: self.base_path@,
            name: self.name@,
            state_path: self.state_path@,
            started_by_us: self.started_by_us,
        }
    }
}

fn word(chars: Vec<char>) -> (r: String)
    ensures
        r@ == chars@,
{
    let mut r = String::new();
    append_chars(&mut r, &chars);
    r
}

fn with_newline(data: &str) -> (r: String)
    ensures
        r@ == data@ + newline(),
{
    let mut v = chars_of(data);
    v.push('\n');
    let r = word(v);
    assert(r@ =~= data@ + newline());
    r
}

fn check_text() -> (r: String)
    ensures
        r@ == check_word(),
{
    let r = word(vec!['c', 'h', 'e', 'c', 'k']);
    assert(r@ =~= check_word());
    r
}

fn idle_text() -> (r: String)
    ensures
        r@ == idle_word(),
{
    let r = word(vec!['i', 'd', 'l', 'e']);
    assert(r@ =~= idle_word());
    r
}

fn same_chars(v: &Vec<char>, hi: usize, w: &Vec<char>) -> (r: bool)
    requires
        hi <= v.len(),
    ensures
        r == (v@.take(hi as int) == w@),
{
    if hi != w.len() {
        assert(v@.take(hi as int).len() != w@.len());
        return false;
    }
    let mut i: usize = 0;
    while i < hi
        invariant
            i <= hi == w.len() <= v.len(),
            forall|j: int| 0 <= j < i ==> v@[j] == w@[j],
        decreases hi - i,
    {
        if v[i] != w[i] {
            assert(v@.take(hi as int)[i as int] != w@[i as int]);
            return false;
        }
        i += 1;
    }
    assert(v@.take(hi as int) =~= w@);
    true
}

/// Whether `contents`, without its trailing whitespace, is `w`.
fn trimmed_is(contents: &str, w: Vec<char>) -> (r: bool)
    ensures
        r == (trim_end(contents@) == w@),
{
    let v = chars_of(contents);
    let n = trim_end_len(&v);
    same_chars(&v, n, &w)
}

impl MdDev {
    /// The array called `name` whose sysfs directory is `base_path`, where its
    /// `uuid` attribute holds `uuid`.  Its position is saved in the file
    /// `state_<uuid>` (the uuid without trailing whitespace); it starts out as
    /// not checked by us.
    pub fn new(name: String, base_path: String, uuid: &str) -> (r: MdDev)
        ensures
            r@.name == name@,
            r@.base_path == base_path@,
            r@.state_path == state_prefix() + trim_end(uuid@),
            !r@.started_by_us,
    {
        let mut state_path = word(vec!['s', 't', 'a', 't', 'e', '_']);
        let id = chars_of(uuid);
        let n = trim_end_len(&id);
        let mut i: usize = 0;
        let ghost p = state_path@;
        while i < n
            invariant
                i <= n <= id.len(),
                state_path@ == p + id@.take(i as int),
            decreases n - i,
        {
            let mut one: Vec<char> = Vec::new();
            one.push(id[i]);
            append_chars(&mut state_path, &one);
            assert(id@.take(i + 1) =~= id@.take(i as int).push(id[i as int]));
            assert(state_path@ =~= p + id@.take(i + 1));
            i += 1;
        }
        assert(p =~= state_prefix());
        MdDev { base_path, name, state_path, started_by_us: false }
    }

    /// The array's name (`md127`).
    pub fn name(&self) -> (r: &str)
        ensures
            r@ == self@.name,
    {
        self.name.as_str()
    }

    /// The array's sysfs directory.
    pub fn base_path(&self) -> (r: &str)
        ensures
            r@ == self@.base_path,
    {
        self.base_path.as_str()
    }

    /// The array's saved-position file.
    pub fn state_path(&self) -> (r: &str)
        ensures
            r@ == self@.state_path,
    {
        self.state_path.as_str()
    }

    /// Whether the check running on the array was started (or resumed) by us.
    pub fn is_ours(&self) -> (r: bool)
        ensures
            r == self@.started_by_us,
    {
        self.started_by_us
    }

    /// The position saved for the array, given what its saved-position file
    /// holds (`None` where there is no such file).
    pub fn state(&self, saved: Option<&str>) -> (r: Result<Option<usize>, StateError>)
        ensures
            match saved {
                None => r == Ok::<Option<usize>, StateError>(None),
                Some(t) => match saved_position(t@) {
                    Some(p) => r == Ok::<Option<usize>, StateError>(Some(p)),
                    None => r == Err::<Option<usize>, StateError>(StateError::NotANumber),
                },
            },
    {
        match saved {
            None => Ok(None),
            Some(t) => {
                let v = chars_of(t);
                let (lo, hi) = trim_bounds(&v);
                match parse_usize_in(&v, lo, hi) {
                    Some(p) => Ok(Some(p)),
                    None => Err(StateError::NotANumber),
                }
            },
        }
    }

    /// Saving `start` as the position to resume from.
    pub fn save_state(&self, start: usize) -> (r: MdAction)
        ensures
            r@ == save_position(start as nat),
    {
        MdAction::SaveState { contents: decimal_string(start) }
    }

    /// Forgetting the saved position.
    pub fn clear_state(&self) -> (r: MdAction)
        ensures
            r@ == MdActionView::ClearState,
    {
        MdAction::ClearState
    }

    /// The sector the check has reached, given what the `sync_completed`
    /// attribute holds; `None` where it holds no position (`none`).
    pub fn sync_completed(&self, contents: &str) -> (r: Option<usize>)
        ensures
            r == completed_position(contents@),
    {
        let v = chars_of(contents);
        let end = trim_end_len(&v);
        let k = find_char(&v, 0, end, '/');
        assert(v@.subrange(0, end as int) =~= trim_end(contents@));
        let mut w: Vec<char> = Vec::new();
        let mut i: usize = 0;
        while i < k
            invariant
                i <= k <= end <= v.len(),
                w@ == v@.subrange(0, i as int),
            decreases k - i,
        {
            w.push(v[i]);
            i += 1;
            assert(w@ =~= v@.subrange(0, i as int));
        }
        let (lo, hi) = trim_bounds(&w);
        parse_usize_in(&w, lo, hi)
    }

    /// What the `sync_action` attribute says, given what it holds.
    pub fn sync_action(&self, contents: &str) -> (r: String)
        ensures
            r@ == trim_end(contents@),
    {
        trimmed_end(contents)
    }

    /// Whether a check is running, given what `sync_action` holds.
    pub fn checking(&self, contents: &str) -> (r: bool)
        ensures
            r == (trim_end(contents@) == check_word()),
    {
        let r = trimmed_is(contents, vec!['c', 'h', 'e', 'c', 'k']);
        assert(seq!['c', 'h', 'e', 'c', 'k'] =~= check_word());
        r
    }

    /// Whether the array is idle, given what `sync_action` holds.
    pub fn idle(&self, contents: &str) -> (r: bool)
        ensures
            r == (trim_end(contents@) == idle_word()),
    {
        let r = trimmed_is(contents, vec!['i', 'd', 'l', 'e']);
        assert(seq!['i', 'd', 'l', 'e'] =~= idle_word());
        r
    }

    /// Setting `sync_action` to `data`.
    pub fn set_sync_action(&self, data: &str) -> (r: MdAction)
        ensures
            r@ == attr_write(MdAttr::SyncAction, data@),
    {
        MdAction::Write { attr: MdAttr::SyncAction, contents: with_newline(data) }
    }

    /// Setting `sync_min` to the sector `data`.
    pub fn set_sync_min(&self, data: usize) -> (r: MdAction)
        ensures
            r@ == attr_write(MdAttr::SyncMin, decimal(data as nat)),
    {
        let d = decimal_string(data);
        MdAction::Write { attr: MdAttr::SyncMin, contents: with_newline(d.as_str()) }
    }

    /// Resuming the check from sector `pos`; the check is ours once done.
    pub fn resume(&self, pos: usize) -> (r: Transition)
        ensures
            actions_view(r.actions@) == resume_actions(pos as nat),
            r.kind == TransitionKind::Resume,
    {
        let mut actions: Vec<MdAction> = Vec::new();
        actions.push(self.set_sync_min(pos));
        let check = check_text();
        actions.push(self.set_sync_action(check.as_str()));
        assert(actions_view(actions@) =~= resume_actions(pos as nat));
        Transition { actions, kind: TransitionKind::Resume }
    }

    /// Starting a check from the beginning; the check is ours once done.
    pub fn start(&self) -> (r: Transition)
        ensures
            actions_view(r.actions@) == resume_actions(0),
            r.kind == TransitionKind::Start,
    {
        let t = self.resume(0);
        Transition { actions: t.actions, kind: TransitionKind::Start }
    }

    /// Stopping the check, which has reached `completed` (`None` where its
    /// progress could not be read); the check is no longer ours once done.
    pub fn stop(&self, completed: Option<usize>) -> (r: Transition)
        ensures
            actions_view(r.actions@) == stop_actions(completed),
            r.kind == TransitionKind::Stop,
    {
        let pos = match completed {
            Some(c) => c,
            None => 0,
        };
        let mut actions: Vec<MdAction> = Vec::new();
        actions.push(self.save_state(pos));
        let idle = idle_text();
        actions.push(self.set_sync_action(idle.as_str()));
        assert(actions_view(actions@) =~= stop_actions(completed));
        Transition { actions, kind: TransitionKind::Stop }
    }

    /// Saving the position of a check that is still running, given the
    /// position read from `sync_completed` (`None` where there was none, which
    /// saves 0).
    pub fn checkpoint(&self, completed: Option<usize>) -> (r: MdAction)
        ensures
            r@ == save_position(
                match completed {
                    Some(c) => c as nat,
                    None => 0,
                },
            ),
    {
        let pos = match completed {
            Some(c) => c,
            None => 0,
        };
        self.save_state(pos)
    }

    /// Records that all the actions of `t` were carried out.
    pub fn complete(&mut self, t: &Transition)
        ensures
            final(self)@ == record(old(self)@, t.kind),
    {
        self.started_by_us = match t.kind {
            TransitionKind::Stop => false,
            _ => true,
        };
    }

    /// What to do with the array when we are done with it, given whether it is
    /// checking (`None` where `sync_action` could not be read).  An array whose
    /// check is not ours is left alone.
    pub fn teardown(&self, checking: Option<bool>) -> (r: Teardown)
        ensures
            r == (if !self@.started_by_us {
                Teardown::Nothing
            } else {
                match checking {
                    None => Teardown::Nothing,
                    Some(true) => Teardown::Stop,
                    Some(false) => Teardown::ClearState,
                }
            }),
    {
        if !self.started_by_us {
            return Teardown::Nothing;
        }
        match checking {
            None => Teardown::Nothing,
            Some(true) => Teardown::Stop,
            Some(false) => Teardown::ClearState,
        }
    }
}

/// Whose check it is: an array as found is not ours; after any sequence of
/// recorded transitions it is ours exactly when the last one started or
/// resumed a check, and its name and paths never change.  Nothing else
/// changes it: every other operation takes the array by shared reference.
pub proof fn lemma_ownership(v: MdDevView, h: Seq<TransitionKind>)
    requires
        !v.started_by_us,
    ensures
        replay(v, h).started_by_us == (h.len() > 0 && makes_ours(h.last())),
        replay(v, h).name == v.name,
        replay(v, h).base_path == v.base_path,
        replay(v, h).state_path == v.state_path,
    decreases h.len(),
{
    if h.len() > 0 {
        lemma_ownership(v, h.drop_last());
    }
}

/// A saved position reads back as the position that was saved.
pub proof fn lemma_saved_position_read_back(pos: usize)
    ensures
        saved_position(decimal(pos as nat)) == Some(pos),
{
    lemma_decimal(pos as nat);
    lemma_trim_unchanged(decimal(pos as nat));
    lemma_parse_decimal(pos);
}

/// Every position the kernel can report is read back: where `sync_completed`
/// holds `"<completed> / <total>"` and a newline, with `completed` any
/// `usize`, the position read is `completed`, whatever the total.
pub proof fn lemma_completed_position_reads_position(completed: usize, total: nat)
    ensures
        completed_position(
            decimal(completed as nat) + seq![' ', '/', ' '] + decimal(total) + newline(),
        ) == Some(completed),
{
    let d = decimal(completed as nat);
    let t = decimal(total);
    let body = d + seq![' ', '/', ' '] + t;
    let text = body + newline();
    lemma_decimal(completed as nat);
    lemma_decimal(total);
    assert(text.drop_last() =~= body);
    assert(body.last() == t.last());
    assert(trim_end(body) == body);
    assert(trim_end(text) == body);
    let k = d.len() as int + 1;
    assert forall|j: int| 0 <= j < k implies body[j] != '/' by {
        if j < d.len() {
            assert(body[j] == d[j]);
            assert(is_digit(d[j]));
        }
    }
    lemma_before_first(body, '/', k);
    let head = body.take(k);
    assert(head =~= d.push(' '));
    assert(head.drop_last() =~= d);
    assert(trim_end(head) == trim_end(d));
    lemma_trim_unchanged(d);
    assert(trim(head) == d);
    lemma_parse_decimal(completed);
}

/// What `set_sync_min` writes reads, trimmed, as the sector it was given.
pub proof fn lemma_sync_min_read_back(pos: usize)
    ensures
        attr_write(MdAttr::SyncMin, decimal(pos as nat)) matches MdActionView::Write {
            contents,
            ..
        } && parse_usize(trim(contents)) == Some(pos),
{
    let d = decimal(pos as nat);
    lemma_decimal(pos as nat);
    let c = d + newline();
    assert(c.drop_last() =~= d);
    assert(trim_end(c) == trim_end(d));
    lemma_trim_unchanged(d);
    lemma_parse_decimal(pos);
}

} // verus!
