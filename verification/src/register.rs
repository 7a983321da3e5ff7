//! The register of the track that is currently selected for playback.

use vstd::prelude::*;

verus! {

/// Holds the path of the current track, or nothing while none is selected.
///
/// Every change goes through `&mut self`, so a write and another access
/// never overlap: whoever shares a register between callers guards it with
/// a lock, and each call then sees the value of one whole earlier write.
#[derive(Debug)]
pub struct TrackRegister {
    current: Option<String>,
}

impl View for TrackRegister {
    type V = Option<Seq<char>>;

    closed spec fn view(&self) -> Option<Seq<char>> {
        match self.current {
            Some(path) => Some(path@),
            None => None,
        }
    }
}

/// What a register holds once `path` was set, whatever it held before.
pub open spec fn after_set(before: Option<Seq<char>>, path: Seq<char>) -> Option<Seq<char>> {
    Some(path)
}

/// What a register holds once each of `paths` was set in turn.
pub open spec fn after_sets(before: Option<Seq<char>>, paths: Seq<Seq<char>>) -> Option<
    Seq<char>,
>
    decreases paths.len(),
{
    if paths.len() == 0 {
        before
    } else {
        after_set(after_sets(before, paths.drop_last()), paths.last())
    }
}

impl TrackRegister {
    /// A register with no track selected.
    pub fn new() -> (register: TrackRegister)
        ensures
            register@ is None,
    {
        TrackRegister { current: None }
    }

    /// Makes `path` the current track. The path is taken as it is: whether
    /// a file exists there is not looked at.
    pub fn set_current(&mut self, path: String)
        ensures
            final(self)@ == after_set(old(self)@, path@),
    {
        self.current = Some(path);
    }

    /// The path that was set last, or `None` if none was ever set.
    pub fn get_current(&self) -> (current: Option<String>)
        ensures
            current.deep_view() == self@,
    {
        match &self.current {
            Some(path) => Some(path.clone()),
            None => None,
        }
    }
}

impl Default for TrackRegister {
    fn default() -> (register: TrackRegister)
        ensures
            register@ is None,
    {
        TrackRegister::new()
    }
}

/// The last write wins: after any writes, the register holds the path of
/// the last of them.
pub proof fn lemma_last_write_wins(before: Option<Seq<char>>, paths: Seq<Seq<char>>)
    requires
        paths.len() > 0,
    ensures
        after_sets(before, paths) == Some(paths.last()),
{
}

/// Whether `order` takes the writes of two callers, `first` and `second`,
/// each caller's in its own order, in some interleaving.
pub open spec fn is_interleaving(
    order: Seq<Seq<char>>,
    first: Seq<Seq<char>>,
    second: Seq<Seq<char>>,
) -> bool
    decreases order.len(),
{
    if order.len() == 0 {
        first.len() == 0 && second.len() == 0
    } else {
        ||| (first.len() > 0 && first.last() == order.last() && is_interleaving(
            order.drop_last(),
            first.drop_last(),
            second,
        ))
        ||| (second.len() > 0 && second.last() == order.last() && is_interleaving(
            order.drop_last(),
            first,
            second.drop_last(),
        ))
    }
}

/// However the writes of two callers interleave, the register ends up
/// with the last write of one of them, whole.
pub proof fn lemma_interleaved_writes(
    before: Option<Seq<char>>,
    order: Seq<Seq<char>>,
    first: Seq<Seq<char>>,
    second: Seq<Seq<char>>,
)
    requires
        is_interleaving(order, first, second),
        order.len() > 0,
    ensures
        (first.len() > 0 && after_sets(before, order) == Some(first.last())) || (second.len() > 0
            && after_sets(before, order) == Some(second.last())),
{
}

/// Two callers that each set one path, in whichever order the two writes
/// take effect, leave one of the two paths: a later read sees nothing else.
pub proof fn lemma_two_writers_leave_one(
    before: Option<Seq<char>>,
    a: Seq<char>,
    b: Seq<char>,
    order: Seq<Seq<char>>,
)
    requires
        is_interleaving(order, seq![a], seq![b]),
    ensures
        after_sets(before, order) == Some(a) || after_sets(before, order) == Some(b),
{
    lemma_interleaved_writes(before, order, seq![a], seq![b]);
}

} // verus!
