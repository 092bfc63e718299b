//! The lock screen: the outputs it covers and the memory it draws into, the
//! user it authenticates, and the locked state that authentication ends.
use vstd::prelude::*;
use crate::shared_context::{
    buffer_layout, buffer_shape, canvas_len, layout_fits, shape_of, stride_fits, BufferShape,
};
use crate::text::{split_char, split_on, trim, trimmed};

verus! {

broadcast use vstd::string::group_string_axioms;

/// The name of an output: the one it reports, or `SomeOutput`.
pub open spec fn output_name(name: Option<Seq<char>>) -> Seq<char> {
    match name {
        Some(n) => n,
        None => "SomeOutput"@,
    }
}

/// The lock window of each output, in the order of the outputs: the
/// output's name and its logical size in pixels.
pub fn lock_outputs(infos: &Vec<(Option<String>, (i32, i32))>) -> (outs: Vec<(String, (u32, u32))>)
    ensures
        outs@.len() == infos@.len(),
        forall|i: int|
            0 <= i < infos@.len() ==> {
                &&& (#[trigger] outs@[i]).0@ == output_name(infos@[i].0.deep_view())
                &&& outs@[i].1 == (infos@[i].1.0 as u32, infos@[i].1.1 as u32)
            },
{
    let mut outs: Vec<(String, (u32, u32))> = Vec::new();
    let mut i: usize = 0;
    while i < infos.len()
        invariant
            i <= infos@.len(),
            outs@.len() == i,
            forall|k: int|
                0 <= k < i ==> {
                    &&& (#[trigger] outs@[k]).0@ == output_name(infos@[k].0.deep_view())
                    &&& outs@[k].1 == (infos@[k].1.0 as u32, infos@[k].1.1 as u32)
                },
        decreases infos@.len() - i,
    {
        let name: String = match &infos[i].0 {
            Some(n) => n.clone(),
            None => "SomeOutput".to_string(),
        };
        proof {
            reveal_strlit("SomeOutput");
        }
        let (w, h) = infos[i].1;
        outs.push((name, (w as u32, h as u32)));
        i = i + 1;
    }
    outs
}

/// The shared memory of the lock screen: one pool, sized for the first
/// output, and the shape of the buffer of each output.
#[derive(Debug)]
pub struct LockLayout {
    /// Bytes of the memory pool.
    pub pool_len: usize,
    /// The buffer of each output, in the order of the outputs.
    pub shapes: Vec<BufferShape>,
}

/// Lays out the shared memory of the lock screen for outputs of the given
/// sizes.
pub fn lock_layout(sizes: &Vec<(u32, u32)>) -> (l: LockLayout)
    requires
        sizes@.len() > 0,
        layout_fits(sizes@[0].0, sizes@[0].1),
        forall|i: int| 0 <= i < sizes@.len() ==> stride_fits(#[trigger] sizes@[i].0),
    ensures
        l.pool_len == canvas_len(sizes@[0].0, sizes@[0].1),
        l.shapes@.len() == sizes@.len(),
        forall|i: int|
            0 <= i < sizes@.len() ==> #[trigger] l.shapes@[i] == shape_of(sizes@[i].0, sizes@[i].1),
{
    let first = buffer_layout(sizes[0].0, sizes[0].1);
    let mut shapes: Vec<BufferShape> = Vec::new();
    let mut i: usize = 0;
    while i < sizes.len()
        invariant
            i <= sizes@.len(),
            shapes@.len() == i,
            forall|k: int| 0 <= k < sizes@.len() ==> stride_fits(#[trigger] sizes@[k].0),
            forall|k: int| 0 <= k < i ==> #[trigger] shapes@[k] == shape_of(sizes@[k].0, sizes@[k].1),
        decreases sizes@.len() - i,
    {
        let (w, h) = sizes[i];
        shapes.push(buffer_shape(w, h));
        i = i + 1;
    }
    LockLayout { pool_len: first.pool_len, shapes }
}

/// The lock windows of the outputs, handed one after another to the
/// windows the interface creates.
#[derive(Debug)]
pub struct LockWindows {
    /// The name and size of the lock window of each output.
    pub windows: Vec<(String, (u32, u32))>,
    /// How many lock windows were handed out.
    pub value_given: u32,
}

impl LockWindows {
    /// The lock windows of the given outputs, none handed out yet.
    pub fn new_lock(lock_outputs: Vec<(String, (u32, u32))>) -> (w: Self)
        ensures
            w.windows@ == lock_outputs@,
            w.value_given == 0,
    {
        LockWindows { windows: lock_outputs, value_given: 0 }
    }

    /// Hands out the next lock window: the index of its adapter.
    pub fn request_new_lock(&mut self, adapters: usize) -> (index: usize)
        requires
            old(self).value_given < adapters,
            old(self).value_given < u32::MAX,
        ensures
            index == old(self).value_given,
            final(self).value_given == old(self).value_given + 1,
            final(self).windows@ == old(self).windows@,
    {
        self.value_given = self.value_given + 1;
        let index = self.value_given - 1;
        index as usize
    }
}

/// The user the login records name most often: the output of `last`,
/// counted, sorted by count, has that user's count and name on its first
/// line; the name is the second word of the trimmed line.
pub open spec fn last_login_user(output: Seq<char>) -> Option<Seq<char>> {
    let line = trimmed(split_on(output, '\n')[0]);
    let words = split_on(line, ' ');
    if words.len() >= 2 {
        Some(words[1])
    } else {
        None
    }
}

proof fn lemma_split_on_nonempty(s: Seq<char>, c: char)
    ensures
        split_on(s, c).len() >= 1,
{
}

/// Reads the name of the user to authenticate from the counted login
/// records; `None` when the first line holds no second word.
pub fn username_from_last(output: &str) -> (r: Option<String>)
    ensures
        match r {
            Some(u) => last_login_user(output@) == Some(u@),
            None => last_login_user(output@) is None,
        },
{
    let lines = split_char(output, '\n');
    proof {
        lemma_split_on_nonempty(output@, '\n');
        assert(lines.deep_view()[0] == lines@[0]@);
    }
    let line = trim(lines[0].as_str());
    let words = split_char(line.as_str(), ' ');
    if words.len() >= 2 {
        proof {
            assert(words.deep_view()[1] == words@[1]@);
        }
        Some(words[1].clone())
    } else {
        None
    }
}

/// Whether the screen is locked, and whether the session lock the
/// compositor granted is still held.
#[derive(Debug, Clone, Copy, PartialEq, Eq, Structural)]
pub struct LockState {
    pub is_locked: bool,
    pub session_held: bool,
}

/// What an authentication attempt led to.
#[derive(Debug, Clone, Copy, PartialEq, Eq, Structural)]
pub enum UnlockOutcome {
    /// The user was not authenticated: nothing changed.
    Rejected,
    /// The screen is unlocked; the session lock was released by this
    /// attempt when `session_released` holds.
    Unlocked { session_released: bool },
}

/// The state after an authentication attempt.
pub open spec fn after_attempt(s: LockState, authenticated: bool) -> LockState {
    if authenticated {
        LockState { is_locked: false, session_held: false }
    } else {
        s
    }
}

/// What an authentication attempt leads to.
pub open spec fn outcome_of(s: LockState, authenticated: bool) -> UnlockOutcome {
    if authenticated {
        UnlockOutcome::Unlocked { session_released: s.session_held }
    } else {
        UnlockOutcome::Rejected
    }
}

impl LockState {
    /// A lock screen that holds the session lock the compositor granted.
    pub fn new() -> (s: Self)
        ensures
            s == (LockState { is_locked: true, session_held: true }),
    {
        LockState { is_locked: true, session_held: true }
    }

    /// Ends an authentication attempt, by password or fingerprint: a
    /// successful one releases the session lock, if it is still held, and
    /// unlocks the screen; a failed one changes nothing.
    pub fn finish_authentication(&mut self, authenticated: bool) -> (r: UnlockOutcome)
        ensures
            *final(self) == after_attempt(*old(self), authenticated),
            r == outcome_of(*old(self), authenticated),
    {
        if authenticated {
            let released = self.session_held;
            self.session_held = false;
            self.is_locked = false;
            UnlockOutcome::Unlocked { session_released: released }
        } else {
            UnlockOutcome::Rejected
        }
    }
}

/// The state after a series of authentication attempts.
pub open spec fn after_attempts(s: LockState, attempts: Seq<bool>) -> LockState
    decreases attempts.len(),
{
    if attempts.len() == 0 {
        s
    } else {
        after_attempts(after_attempt(s, attempts[0]), attempts.drop_first())
    }
}

/// How many attempts of a series released the session lock.
pub open spec fn releases(s: LockState, attempts: Seq<bool>) -> nat
    decreases attempts.len(),
{
    if attempts.len() == 0 {
        0
    } else {
        (if outcome_of(s, attempts[0]) == (UnlockOutcome::Unlocked { session_released: true }) {
            1nat
        } else {
            0nat
        }) + releases(after_attempt(s, attempts[0]), attempts.drop_first())
    }
}

/// A failed authentication leaves the lock screen as it was.
pub proof fn lemma_rejection_changes_nothing(s: LockState)
    ensures
        after_attempt(s, false) == s,
        outcome_of(s, false) == UnlockOutcome::Rejected,
{
}

/// Once unlocked, the screen stays unlocked whatever attempts follow.
pub proof fn lemma_unlocked_stays_unlocked(s: LockState, attempts: Seq<bool>)
    requires
        !s.is_locked,
        !s.session_held,
    ensures
        !after_attempts(s, attempts).is_locked,
        !after_attempts(s, attempts).session_held,
    decreases attempts.len(),
{
    if attempts.len() > 0 {
        lemma_unlocked_stays_unlocked(after_attempt(s, attempts[0]), attempts.drop_first());
    }
}

/// Over any series of attempts the session lock is released at most once,
/// and only if it was held.
pub proof fn lemma_session_released_once(s: LockState, attempts: Seq<bool>)
    ensures
        releases(s, attempts) <= (if s.session_held { 1nat } else { 0nat }),
        !s.session_held ==> !after_attempts(s, attempts).session_held,
    decreases attempts.len(),
{
    if attempts.len() > 0 {
        lemma_session_released_once(after_attempt(s, attempts[0]), attempts.drop_first());
    }
}

/// The screen is unlocked after a series of attempts exactly when one of
/// them succeeded or it was unlocked before.
pub proof fn lemma_unlocked_iff_authenticated(s: LockState, attempts: Seq<bool>)
    ensures
        !after_attempts(s, attempts).is_locked <==> (!s.is_locked || attempts.contains(true)),
    decreases attempts.len(),
{
    if attempts.len() > 0 {
        let rest = attempts.drop_first();
        lemma_unlocked_iff_authenticated(after_attempt(s, attempts[0]), rest);
        if rest.contains(true) {
            let i = choose|i: int| 0 <= i < rest.len() && rest[i] == true;
            assert(attempts[i + 1] == true);
        }
        if attempts.contains(true) && attempts[0] != true {
            let i = choose|i: int| 0 <= i < attempts.len() && attempts[i] == true;
            assert(rest[i - 1] == true);
        }
    }
}

} // verus!
