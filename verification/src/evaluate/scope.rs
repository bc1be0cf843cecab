//! Scopes: frames of variables, each with a parent.

use vstd::prelude::*;
use crate::evaluate::value::{value_fits, value_fits_more_frames, Callable, Value, ValueView};

verus! {

/// One frame: its variables and the next frame outward.
#[derive(Debug)]
pub struct Frame<'a> {
    entries: Vec<(String, Value<'a>)>,
    parent: Option<usize>,
}

/// A frame as a mathematical value: a map from names to values, and the
/// index of the parent.
pub struct FrameView {
    pub bindings: Map<Seq<char>, ValueView>,
    pub parent: Option<nat>,
}

/// The map that a list of entries stands for; a later entry of a name
/// hides an earlier one.
pub open spec fn bindings_of(entries: Seq<(String, Value<'_>)>) -> Map<Seq<char>, ValueView>
    decreases entries.len(),
{
    if entries.len() == 0 {
        Map::empty()
    } else {
        bindings_of(entries.drop_last()).insert(entries.last().0@, entries.last().1@)
    }
}

/// The last place at which `name` stands among the entries.
pub open spec fn last_index_of(entries: Seq<(String, Value<'_>)>, name: Seq<char>) -> Option<int>
    decreases entries.len(),
{
    if entries.len() == 0 {
        None
    } else if entries.last().0@ == name {
        Some(entries.len() - 1)
    } else {
        last_index_of(entries.drop_last(), name)
    }
}

/// The map holds a name exactly if some entry does, and then with the value
/// of the last such entry.
pub proof fn lookup_is_last_entry(entries: Seq<(String, Value<'_>)>, name: Seq<char>)
    ensures
        bindings_of(entries).contains_key(name) <==> last_index_of(entries, name) is Some,
        last_index_of(entries, name) matches Some(i) ==> {
            &&& 0 <= i < entries.len()
            &&& entries[i].0@ == name
            &&& bindings_of(entries)[name] == entries[i].1@
        },
    decreases entries.len(),
{
    if entries.len() > 0 {
        lookup_is_last_entry(entries.drop_last(), name);
    }
}

/// Replacing the value of the last entry of a name changes the map at that
/// name, and nowhere else.
pub proof fn update_is_insert<'a>(
    entries: Seq<(String, Value<'a>)>,
    name: Seq<char>,
    i: int,
    entry: (String, Value<'a>),
)
    requires
        last_index_of(entries, name) == Some(i),
        entry.0@ == name,
    ensures
        0 <= i < entries.len(),
        bindings_of(entries.update(i, entry)) == bindings_of(entries).insert(name, entry.1@),
    decreases entries.len(),
{
    lookup_is_last_entry(entries, name);
    let updated = entries.update(i, entry);
    if i == entries.len() - 1 {
        assert(updated.drop_last() =~= entries.drop_last());
        assert(bindings_of(updated) =~= bindings_of(entries).insert(name, entry.1@));
    } else {
        update_is_insert(entries.drop_last(), name, i, entry);
        assert(updated.drop_last() =~= entries.drop_last().update(i, entry));
        assert(updated.last() == entries.last());
        assert(bindings_of(updated) =~= bindings_of(entries).insert(name, entry.1@));
    }
}

impl<'a> View for Frame<'a> {
    type V = FrameView;

    closed spec fn view(&self) -> FrameView {
        FrameView {
            bindings: bindings_of(self.entries@),
            parent: match self.parent {
                Some(p) => Some(p as nat),
                None => None,
            },
        }
    }
}

impl FrameView {
    /// A frame without variables.
    pub open spec fn empty(parent: Option<nat>) -> FrameView {
        FrameView { bindings: Map::empty(), parent }
    }

    /// The frame with `name` bound to `value`.
    pub open spec fn with(self, name: Seq<char>, value: ValueView) -> FrameView {
        FrameView { bindings: self.bindings.insert(name, value), parent: self.parent }
    }
}

impl<'a> Frame<'a> {
    fn new(parent: Option<usize>) -> (frame: Frame<'a>)
        ensures
            frame@ == FrameView::empty(
                match parent {
                    Some(p) => Some(p as nat),
                    None => None,
                },
            ),
    {
        Frame { entries: Vec::new(), parent }
    }

    fn position(&self, name: &String) -> (found: Option<usize>)
        ensures
            match found {
                Some(i) => last_index_of(self.entries@, name@) == Some(i as int),
                None => last_index_of(self.entries@, name@) is None,
            },
    {
        let mut i: usize = self.entries.len();
        assert(self.entries@.take(i as int) =~= self.entries@);
        while i > 0
            invariant
                i <= self.entries@.len(),
                last_index_of(self.entries@, name@) == last_index_of(
                    self.entries@.take(i as int),
                    name@,
                ),
            decreases i,
        {
            assert(self.entries@.take(i as int).drop_last() =~= self.entries@.take(i - 1));
            if self.entries[i - 1].0 == *name {
                return Some(i - 1);
            }
            i -= 1;
        }
        None
    }

    fn get(&self, name: &String) -> (found: Option<Value<'a>>)
        ensures
            match found {
                Some(value) => self@.bindings.contains_key(name@) && self@.bindings[name@]
                    == value@,
                None => !self@.bindings.contains_key(name@),
            },
    {
        proof {
            lookup_is_last_entry(self.entries@, name@);
        }
        match self.position(name) {
            Some(i) => Some(self.entries[i].1.clone()),
            None => None,
        }
    }

    fn define(&mut self, name: String, value: Value<'a>)
        ensures
            final(self)@ == old(self)@.with(name@, value@),
    {
        match self.position(&name) {
            Some(i) => {
                proof {
                    update_is_insert(self.entries@, name@, i as int, (name, value));
                }
                self.entries.set(i, (name, value));
            },
            None => {
                assert(self.entries@.push((name, value)).drop_last() =~= self.entries@);
                self.entries.push((name, value));
            },
        }
    }
}

/// The frames of a run. A frame is named by its index; the frame at index 0
/// is the global one. A frame's parent has a smaller index than the frame.
#[derive(Debug)]
pub struct Scope<'a> {
    frames: Vec<Frame<'a>>,
}

/// The views of the frames.
pub open spec fn frame_views(frames: Seq<Frame<'_>>) -> Seq<FrameView> {
    frames.map_values(|frame: Frame<'_>| frame@)
}

impl<'a> View for Scope<'a> {
    type V = Seq<FrameView>;

    closed spec fn view(&self) -> Seq<FrameView> {
        frame_views(self.frames@)
    }
}

/// The name of the built-in function that gives the time.
pub open spec fn clock_name() -> Seq<char> {
    "clock"@
}

/// The nearest frame that holds `name`, walking outward from the frame
/// `at` along the parents.
pub open spec fn resolve(frames: Seq<FrameView>, at: nat, name: Seq<char>) -> Option<nat>
    decreases at,
{
    if at >= frames.len() {
        None
    } else if frames[at as int].bindings.contains_key(name) {
        Some(at)
    } else {
        match frames[at as int].parent {
            Some(parent) if parent < at => resolve(frames, parent, name),
            _ => None,
        }
    }
}

/// The value of `name` as seen from the frame `at`: that of the nearest
/// frame that holds the name.
pub open spec fn lookup(frames: Seq<FrameView>, at: nat, name: Seq<char>) -> Option<ValueView> {
    match resolve(frames, at, name) {
        Some(holder) => Some(frames[holder as int].bindings[name]),
        None => None,
    }
}

/// The frames after `name` is bound to `value` in the frame `at` itself.
/// Nothing changes where there is no such frame.
pub open spec fn defined(
    frames: Seq<FrameView>,
    at: nat,
    name: Seq<char>,
    value: ValueView,
) -> Seq<FrameView> {
    if at < frames.len() {
        frames.update(at as int, frames[at as int].with(name, value))
    } else {
        frames
    }
}

/// The frames after `value` is assigned to `name` as seen from the frame
/// `at`: the nearest frame that holds the name holds the new value. Nothing
/// changes where no frame holds the name.
pub open spec fn assigned(
    frames: Seq<FrameView>,
    at: nat,
    name: Seq<char>,
    value: ValueView,
) -> Seq<FrameView> {
    match resolve(frames, at, name) {
        Some(holder) => defined(frames, holder, name, value),
        None => frames,
    }
}

/// The frames with a new, empty frame behind them whose parent is
/// `parent`; it has none where `parent` names no frame.
pub open spec fn entered(frames: Seq<FrameView>, parent: nat) -> Seq<FrameView> {
    frames.push(
        FrameView::empty(
            if parent < frames.len() {
                Some(parent)
            } else {
                None
            },
        ),
    )
}

/// A resolved name is held by a frame that exists and that is not further in
/// than the frame the walk started from.
pub proof fn resolve_finds_a_holder(frames: Seq<FrameView>, at: nat, name: Seq<char>)
    ensures
        resolve(frames, at, name) matches Some(holder) ==> holder <= at && holder < frames.len()
            && frames[holder as int].bindings.contains_key(name),
    decreases at,
{
    if at < frames.len() && !frames[at as int].bindings.contains_key(name) {
        match frames[at as int].parent {
            Some(parent) if parent < at => resolve_finds_a_holder(frames, parent, name),
            _ => {},
        }
    }
}

/// A name defined in a frame is found from that frame, with the value
/// given.
pub proof fn defined_name_is_found(
    frames: Seq<FrameView>,
    at: nat,
    name: Seq<char>,
    value: ValueView,
)
    requires
        at < frames.len(),
    ensures
        lookup(defined(frames, at, name, value), at, name) == Some(value),
{
}

/// Defining a name changes what no other name stands for.
pub proof fn defining_keeps_other_names(
    frames: Seq<FrameView>,
    at: nat,
    name: Seq<char>,
    value: ValueView,
    from: nat,
    other: Seq<char>,
)
    requires
        other != name,
    ensures
        lookup(defined(frames, at, name, value), from, other) == lookup(frames, from, other),
    decreases from,
{
    let after = defined(frames, at, name, value);
    if from < frames.len() && !frames[from as int].bindings.contains_key(other) {
        match frames[from as int].parent {
            Some(parent) if parent < from => {
                defining_keeps_other_names(frames, at, name, value, parent, other);
            },
            _ => {},
        }
    }
}

/// Shadowing: what is defined in a new frame is seen from that frame only.
/// From every frame that existed before, every name stands for what it
/// stood for.
pub proof fn inner_definitions_stay_inside(
    frames: Seq<FrameView>,
    parent: nat,
    name: Seq<char>,
    value: ValueView,
    from: nat,
    other: Seq<char>,
)
    requires
        from < frames.len(),
    ensures
        lookup(defined(entered(frames, parent), frames.len(), name, value), from, other)
            == lookup(frames, from, other),
    decreases from,
{
    let after = defined(entered(frames, parent), frames.len(), name, value);
    assert(after[from as int] == frames[from as int]);
    if !frames[from as int].bindings.contains_key(other) {
        match frames[from as int].parent {
            Some(up) if up < from => {
                inner_definitions_stay_inside(frames, parent, name, value, up, other);
            },
            _ => {},
        }
    }
}

/// A new frame sees what its parent sees.
pub proof fn new_frame_sees_its_parent(frames: Seq<FrameView>, parent: nat, name: Seq<char>)
    requires
        parent < frames.len(),
    ensures
        lookup(entered(frames, parent), frames.len(), name) == lookup(frames, parent, name),
{
    let after = entered(frames, parent);
    assert(!after[frames.len() as int].bindings.contains_key(name));
    entering_keeps_what_is_seen(frames, parent, parent, name);
}

/// A new frame changes what no frame before it sees.
pub proof fn entering_keeps_what_is_seen(
    frames: Seq<FrameView>,
    parent: nat,
    from: nat,
    name: Seq<char>,
)
    requires
        from < frames.len(),
    ensures
        resolve(entered(frames, parent), from, name) == resolve(frames, from, name),
        lookup(entered(frames, parent), from, name) == lookup(frames, from, name),
    decreases from,
{
    let after = entered(frames, parent);
    assert(after[from as int] == frames[from as int]);
    resolve_finds_a_holder(frames, from, name);
    if !frames[from as int].bindings.contains_key(name) {
        match frames[from as int].parent {
            Some(up) if up < from => {
                entering_keeps_what_is_seen(frames, parent, up, name);
            },
            _ => {},
        }
    }
}

/// Frames are shared, not copied: a new value in the frame that holds a
/// name is seen from every frame that finds the name there, also from one
/// that a function captured before the value changed.
pub proof fn a_change_is_seen_by_every_holder_of_the_frame(
    frames: Seq<FrameView>,
    from: nat,
    name: Seq<char>,
    holder: nat,
    value: ValueView,
)
    requires
        resolve(frames, from, name) == Some(holder),
    ensures
        lookup(defined(frames, holder, name, value), from, name) == Some(value),
        resolve(defined(frames, holder, name, value), from, name) == Some(holder),
    decreases from,
{
    resolve_finds_a_holder(frames, from, name);
    let after = defined(frames, holder, name, value);
    if from != holder {
        assert(after[from as int] == frames[from as int]);
        match frames[from as int].parent {
            Some(up) if up < from => {
                a_change_is_seen_by_every_holder_of_the_frame(frames, up, name, holder, value);
            },
            _ => {},
        }
    }
}

/// An assignment is seen where it was made, and from every frame that finds
/// the name in the same frame.
pub proof fn an_assignment_is_seen(
    frames: Seq<FrameView>,
    at: nat,
    from: nat,
    name: Seq<char>,
    value: ValueView,
)
    requires
        resolve(frames, at, name) is Some,
        resolve(frames, from, name) == resolve(frames, at, name),
    ensures
        lookup(assigned(frames, at, name, value), from, name) == Some(value),
        lookup(assigned(frames, at, name, value), at, name) == Some(value),
{
    let holder = resolve(frames, at, name)->0;
    a_change_is_seen_by_every_holder_of_the_frame(frames, from, name, holder, value);
    a_change_is_seen_by_every_holder_of_the_frame(frames, at, name, holder, value);
}

/// Assigning to a name that no frame holds changes nothing.
pub proof fn assigning_an_unknown_name_changes_nothing(
    frames: Seq<FrameView>,
    at: nat,
    name: Seq<char>,
    value: ValueView,
)
    requires
        resolve(frames, at, name) is None,
    ensures
        assigned(frames, at, name, value) == frames,
        lookup(frames, at, name) is None,
{
}

/// Whether the frames hang together: each parent stands before its child,
/// and the functions that the frames hold were declared in one of them.
pub open spec fn frames_fit(frames: Seq<FrameView>) -> bool {
    &&& forall|i: int|
        0 <= i < frames.len() ==> (#[trigger] frames[i].parent matches Some(parent) ==> parent
            < i)
    &&& forall|i: int, name: Seq<char>|
        0 <= i < frames.len() && #[trigger] frames[i].bindings.contains_key(name) ==> value_fits(
            frames[i].bindings[name],
            frames.len(),
        )
}

/// What is found in frames that hang together fits them.
pub proof fn found_values_fit(frames: Seq<FrameView>, at: nat, name: Seq<char>)
    requires
        frames_fit(frames),
    ensures
        lookup(frames, at, name) matches Some(value) ==> value_fits(value, frames.len()),
{
    resolve_finds_a_holder(frames, at, name);
}

/// Frames that hang together still do with a new frame under one of them.
pub proof fn entering_keeps_frames_fitting(frames: Seq<FrameView>, parent: nat)
    requires
        frames_fit(frames),
    ensures
        frames_fit(entered(frames, parent)),
        entered(frames, parent).len() == frames.len() + 1,
{
    let after = entered(frames, parent);
    assert forall|i: int, name: Seq<char>|
        0 <= i < after.len() && #[trigger] after[i].bindings.contains_key(name) implies value_fits(
        after[i].bindings[name],
        after.len(),
    ) by {
        if i < frames.len() {
            assert(after[i] == frames[i]);
            assert(frames[i].bindings.contains_key(name));
            value_fits_more_frames(frames[i].bindings[name], frames.len(), after.len());
        }
    }
    assert forall|i: int| 0 <= i < after.len() implies (#[trigger] after[i].parent matches Some(
        up,
    ) ==> up < i) by {
        if i < frames.len() {
            assert(after[i] == frames[i]);
        }
    }
}

/// Frames that hang together still do when one of them binds a value that
/// fits.
pub proof fn defining_keeps_frames_fitting(
    frames: Seq<FrameView>,
    at: nat,
    name: Seq<char>,
    value: ValueView,
)
    requires
        frames_fit(frames),
        value_fits(value, frames.len()),
    ensures
        frames_fit(defined(frames, at, name, value)),
        defined(frames, at, name, value).len() == frames.len(),
{
    let after = defined(frames, at, name, value);
    assert forall|i: int, other: Seq<char>|
        0 <= i < after.len() && #[trigger] after[i].bindings.contains_key(other) implies value_fits(
        after[i].bindings[other],
        after.len(),
    ) by {
        if i == at && other == name {
        } else {
            assert(frames[i].bindings.contains_key(other));
        }
    }
    assert forall|i: int| 0 <= i < after.len() implies (#[trigger] after[i].parent matches Some(
        up,
    ) ==> up < i) by {
        assert(after[i].parent == frames[i].parent);
    }
}

/// Frames that hang together still do after an assignment of a value that
/// fits.
pub proof fn assigning_keeps_frames_fitting(
    frames: Seq<FrameView>,
    at: nat,
    name: Seq<char>,
    value: ValueView,
)
    requires
        frames_fit(frames),
        value_fits(value, frames.len()),
    ensures
        frames_fit(assigned(frames, at, name, value)),
        assigned(frames, at, name, value).len() == frames.len(),
{
    match resolve(frames, at, name) {
        Some(holder) => defining_keeps_frames_fitting(frames, holder, name, value),
        None => {},
    }
}

impl<'a> Scope<'a> {
    /// The frames of a new run: the global frame alone, without variables.
    pub fn new() -> (scope: Scope<'a>)
        ensures
            scope@ == seq![FrameView::empty(None)],
            frames_fit(scope@),
    {
        let mut frames: Vec<Frame<'a>> = Vec::new();
        let frame = Frame::new(None);
        frames.push(frame);
        assert(frame_views(frames@) =~= seq![FrameView::empty(None)]);
        Scope { frames }
    }

    /// The frames of a new run with the built-in `clock` defined in the
    /// global frame.
    pub fn global() -> (scope: Scope<'a>)
        ensures
            scope@ == seq![
                FrameView::empty(None).with(clock_name(), ValueView::Clock),
            ],
            frames_fit(scope@),
    {
        let mut scope = Scope::new();
        scope.define(0, String::from_str("clock"), Value::Callable(Callable::Clock));
        assert(scope@ =~= seq![FrameView::empty(None).with(clock_name(), ValueView::Clock)]);
        scope
    }

    /// The number of frames.
    pub fn len(&self) -> (count: usize)
        ensures
            count == self@.len(),
    {
        self.frames.len()
    }

    /// Adds an empty frame whose parent is `parent`, and returns its index.
    pub fn child(&mut self, parent: usize) -> (index: usize)
        ensures
            final(self)@ == entered(old(self)@, parent as nat),
            index == old(self)@.len(),
            frames_fit(old(self)@) ==> frames_fit(final(self)@),
    {
        proof {
            if frames_fit(self@) {
                entering_keeps_frames_fitting(self@, parent as nat);
            }
        }
        let index = self.frames.len();
        let frame = Frame::new(
            if parent < index {
                Some(parent)
            } else {
                None
            },
        );
        self.frames.push(frame);
        assert(frame_views(self.frames@) =~= entered(frame_views(old(self).frames@), parent as nat));
        index
    }

    /// Binds `name` to `value` in the frame `at` itself, whether or not the
    /// frame or one further out holds the name already.
    pub fn define(&mut self, at: usize, name: String, value: Value<'a>)
        ensures
            final(self)@ == defined(old(self)@, at as nat, name@, value@),
            frames_fit(old(self)@) && value_fits(value@, old(self)@.len()) ==> frames_fit(
                final(self)@,
            ),
    {
        proof {
            if frames_fit(self@) && value_fits(value@, self@.len()) {
                defining_keeps_frames_fitting(self@, at as nat, name@, value@);
            }
        }
        if at < self.frames.len() {
            let ghost before = self.frames@;
            self.frames[at].define(name, value);
            assert(frame_views(self.frames@) =~= defined(
                frame_views(before),
                at as nat,
                name@,
                value@,
            ));
        }
    }

    fn holder(&self, at: usize, name: &String) -> (found: Option<usize>)
        ensures
            match found {
                Some(holder) => resolve(self@, at as nat, name@) == Some(holder as nat) && holder
                    < self@.len(),
                None => resolve(self@, at as nat, name@) is None,
            },
    {
        let mut current: usize = at;
        loop
            invariant
                resolve(self@, at as nat, name@) == resolve(self@, current as nat, name@),
            decreases current,
        {
            if current >= self.frames.len() {
                return None;
            }
            let frame = &self.frames[current];
            if frame.position(name).is_some() {
                proof {
                    lookup_is_last_entry(frame.entries@, name@);
                }
                return Some(current);
            }
            proof {
                lookup_is_last_entry(frame.entries@, name@);
            }
            match frame.parent {
                Some(parent) => {
                    if parent < current {
                        current = parent;
                    } else {
                        return None;
                    }
                },
                None => {
                    return None;
                },
            }
        }
    }

    /// Assigns `value` to `name` in the nearest frame that holds the name,
    /// walking outward from the frame `at`. Returns whether a frame held
    /// it; where none does, nothing changes.
    pub fn set(&mut self, at: usize, name: &String, value: Value<'a>) -> (found: bool)
        ensures
            final(self)@ == assigned(old(self)@, at as nat, name@, value@),
            found == resolve(old(self)@, at as nat, name@) is Some,
            frames_fit(old(self)@) && value_fits(value@, old(self)@.len()) ==> frames_fit(
                final(self)@,
            ),
    {
        match self.holder(at, name) {
            Some(holder) => {
                self.define(holder, name.clone(), value);
                true
            },
            None => false,
        }
    }

    /// The value of `name` in the nearest frame that holds the name,
    /// walking outward from the frame `at`; `None` where none does.
    pub fn get(&self, at: usize, name: &String) -> (found: Option<Value<'a>>)
        ensures
            match found {
                Some(value) => lookup(self@, at as nat, name@) == Some(value@),
                None => lookup(self@, at as nat, name@) is None,
            },
            frames_fit(self@) ==> (found matches Some(value) ==> value_fits(value@, self@.len())),
    {
        proof {
            resolve_finds_a_holder(self@, at as nat, name@);
            if frames_fit(self@) {
                found_values_fit(self@, at as nat, name@);
            }
        }
        match self.holder(at, name) {
            Some(holder) => {
                assert(self@[holder as int] == self.frames@[holder as int]@);
                self.frames[holder].get(name)
            },
            None => None,
        }
    }
}

} // verus!
