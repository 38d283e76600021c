//! Keys and buttons that several senders hold on one seat.
//!
//! The browser and every emulated device are sources of their own. A button is
//! down on the seat while at least one source holds it.

use crate::geometry::DecorationAction;
use crate::messages::ButtonState;
use crate::text::same_text;
use crate::windows::{DecorationHit, WindowId};
use vstd::prelude::*;

verus! {

/// The evdev code of the left pointer button.
pub const LEFT_BUTTON: u32 = 0x110;

/// How far XKB's key codes lie above those of evdev.
pub const XKB_OFFSET: u32 = 8;

/// One sender of input.
#[derive(Clone, Copy, Debug, PartialEq, Eq, Structural)]
pub struct InputSource {
    pub id: u64,
}

pub open spec fn main_source() -> InputSource {
    InputSource { id: 0 }
}

impl InputSource {
    /// The source of the browser's input.
    pub fn main() -> (r: Self)
        ensures
            r == main_source(),
    {
        InputSource { id: 0 }
    }
}

/// Hands out the sources of emulated devices, each one once.
#[derive(Debug)]
pub struct SourceAllocator {
    pub last: u64,
}

impl SourceAllocator {
    pub fn new() -> (r: Self)
        ensures
            r.last == main_source().id,
    {
        SourceAllocator { last: 0 }
    }

    pub fn allocate(&mut self) -> (r: InputSource)
        requires
            old(self).last < u64::MAX,
        ensures
            final(self).last == old(self).last + 1,
            r.id == final(self).last,
    {
        self.last = self.last + 1;
        InputSource { id: self.last }
    }
}

/// A button that a source holds down.
#[derive(Clone, Copy, Debug, PartialEq, Eq, Structural)]
pub struct HeldButton {
    pub source: InputSource,
    pub button: u32,
}

/// The buttons that the sources hold.
#[derive(Debug)]
pub struct Buttons {
    pub held: Vec<HeldButton>,
}

/// Whether some source holds the button.
pub open spec fn is_down(held: Set<HeldButton>, button: u32) -> bool {
    exists|source: InputSource| held.contains(HeldButton { source, button })
}

pub open spec fn after_button(
    held: Set<HeldButton>,
    source: InputSource,
    button: u32,
    state: ButtonState,
) -> Set<HeldButton> {
    match state {
        ButtonState::Pressed => held.insert(HeldButton { source, button }),
        ButtonState::Released => held.remove(HeldButton { source, button }),
    }
}

pub open spec fn without_source(held: Set<HeldButton>, source: InputSource) -> Set<HeldButton> {
    held.filter(|one: HeldButton| one.source != source)
}

/// Whether a source let go of everything, and the seat is told these releases.
pub open spec fn lets_go(
    held: Set<HeldButton>,
    source: InputSource,
    after: Set<HeldButton>,
    released: Seq<u32>,
) -> bool {
    &&& after == without_source(held, source)
    &&& released.no_duplicates()
    &&& forall|button: u32| #[trigger]
        released.contains(button) <==> held.contains(HeldButton { source, button }) && !is_down(
            after,
            button,
        )
}

/// What the pointer is doing when a button changes.
#[derive(Clone, Copy, Debug, PartialEq, Eq, Structural)]
pub struct PointerState {
    pub grabbed: bool,
    /// The decoration under the pointer.
    pub decoration: Option<DecorationHit>,
}

/// What the seat does with a button.
#[derive(Clone, Copy, Debug, PartialEq, Eq, Structural)]
pub enum ButtonPlan {
    /// The button was down, or up, already, or the seat has no pointer.
    Ignore,
    /// The window is focused, the button is delivered, and the decoration acts.
    Decoration { window: WindowId, action: DecorationAction },
    /// The button is delivered, after the window under the pointer was focused
    /// where `refocus` says so.
    Deliver { refocus: bool },
}

pub open spec fn button_plan(
    changed: bool,
    button: u32,
    state: ButtonState,
    pointer: Option<PointerState>,
) -> ButtonPlan {
    match pointer {
        Some(pointer) if changed => {
            let free_press = state == ButtonState::Pressed && !pointer.grabbed;
            match pointer.decoration {
                Some(hit) if free_press && button == LEFT_BUTTON => ButtonPlan::Decoration {
                    window: hit.window,
                    action: hit.action,
                },
                _ => ButtonPlan::Deliver { refocus: free_press },
            }
        },
        _ => ButtonPlan::Ignore,
    }
}

impl Buttons {
    pub open spec fn view(&self) -> Set<HeldButton> {
        self.held@.to_set()
    }

    pub open spec fn wf(&self) -> bool {
        self.held@.no_duplicates()
    }

    pub fn new() -> (r: Self)
        ensures
            r.wf(),
            r@ == Set::<HeldButton>::empty(),
    {
        let held: Vec<HeldButton> = Vec::new();
        assert(held@.to_set() =~= Set::<HeldButton>::empty());
        Buttons { held }
    }

    /// Whether some source holds the button.
    pub fn down(&self, button: u32) -> (r: bool)
        ensures
            r == is_down(self@, button),
    {
        let mut index: usize = 0;
        while index < self.held.len()
            invariant
                index <= self.held.len(),
                forall|i: int| 0 <= i < index ==> (#[trigger] self.held[i]).button != button,
            decreases self.held.len() - index,
        {
            if self.held[index].button == button {
                let ghost one = self.held[index as int];
                assert(self.held@.contains(one));
                assert(self@.contains(HeldButton { source: one.source, button }));
                return true;
            }
            index = index + 1;
        }
        assert forall|source: InputSource| !self@.contains(HeldButton { source, button }) by {
            if self@.contains(HeldButton { source, button }) {
                let i = choose|i: int|
                    0 <= i < self.held.len() && self.held@[i] == (HeldButton { source, button });
                assert(self.held[i].button == button);
            }
        }
        false
    }

    fn find(&self, source: InputSource, button: u32) -> (r: Option<usize>)
        ensures
            match r {
                Some(index) => index < self.held.len() && self.held[index as int] == (HeldButton {
                    source,
                    button,
                }),
                None => !self@.contains(HeldButton { source, button }),
            },
    {
        let mut index: usize = 0;
        while index < self.held.len()
            invariant
                index <= self.held.len(),
                forall|i: int|
                    0 <= i < index ==> (#[trigger] self.held[i]) != (HeldButton { source, button }),
            decreases self.held.len() - index,
        {
            if self.held[index].source == source && self.held[index].button == button {
                return Some(index);
            }
            index = index + 1;
        }
        None
    }

    /// Records that a source pressed or released a button, and decides what the seat
    /// does with it: only the first press and the last release of a button reach
    /// it. A press of the left button on a decoration works the decoration, unless a
    /// grab holds the pointer; any other free press focuses the window under it.
    pub fn pointer_button(
        &mut self,
        source: InputSource,
        button: u32,
        state: ButtonState,
        pointer: Option<PointerState>,
    ) -> (plan: ButtonPlan)
        requires
            old(self).wf(),
        ensures
            final(self).wf(),
            final(self)@ == after_button(old(self)@, source, button, state),
            plan == button_plan(
                is_down(old(self)@, button) != is_down(final(self)@, button),
                button,
                state,
                pointer,
            ),
    {
        let before: bool = self.down(button);
        let found: Option<usize> = self.find(source, button);
        let ghost one = HeldButton { source, button };
        let ghost earlier = self.held@;
        match state {
            ButtonState::Pressed => {
                match found {
                    Some(index) => {
                        proof {
                            assert(earlier[index as int] == one);
                            assert(earlier.to_set() =~= earlier.to_set().insert(one));
                        }
                    },
                    None => {
                        self.held.push(HeldButton { source, button });
                        proof {
                            lemma_push_held(earlier, one);
                        }
                    },
                }
            },
            ButtonState::Released => {
                match found {
                    Some(index) => {
                        self.held.remove(index);
                        proof {
                            lemma_remove_held(earlier, index as int);
                        }
                    },
                    None => {
                        proof {
                            assert(earlier.to_set() =~= earlier.to_set().remove(one));
                        }
                    },
                }
            },
        }
        let after: bool = self.down(button);
        if before == after {
            return ButtonPlan::Ignore;
        }
        match pointer {
            Some(pointer) => {
                let pressed: bool = match state {
                    ButtonState::Pressed => true,
                    ButtonState::Released => false,
                };
                let free_press: bool = pressed && !pointer.grabbed;
                if let Some(hit) = pointer.decoration {
                    if free_press && button == LEFT_BUTTON {
                        return ButtonPlan::Decoration { window: hit.window, action: hit.action };
                    }
                }
                ButtonPlan::Deliver { refocus: free_press }
            },
            None => ButtonPlan::Ignore,
        }
    }

    /// Lets go of everything that a source holds, and returns the buttons whose
    /// release the seat is told: those that no other source holds.
    pub fn release_source(&mut self, source: InputSource) -> (released: Vec<u32>)
        requires
            old(self).wf(),
        ensures
            final(self).wf(),
            final(self)@ == without_source(old(self)@, source),
            released@.no_duplicates(),
            forall|button: u32| #[trigger]
                released@.contains(button) <==> old(self)@.contains(HeldButton { source, button })
                    && !is_down(final(self)@, button),
            lets_go(old(self)@, source, final(self)@, released@),
    {
        let ghost before = self.held@;
        let mut own: Vec<u32> = Vec::new();
        let mut kept: Vec<HeldButton> = Vec::new();
        let mut index: usize = 0;
        while index < self.held.len()
            invariant
                index <= self.held.len(),
                self.held@ == before,
                before.no_duplicates(),
                kept@ == before.take(index as int).filter(|one: HeldButton| one.source != source),
                own@.no_duplicates(),
                forall|button: u32| #[trigger]
                    own@.contains(button) <==> before.take(index as int).contains(
                        HeldButton { source, button },
                    ),
            decreases self.held.len() - index,
        {
            let one: HeldButton = self.held[index];
            let ghost seen = before.take(index as int);
            assert(before.take(index as int + 1) =~= seen.push(one));
            proof {
                reveal(Seq::filter);
                assert(seen.push(one).drop_last() =~= seen);
            }
            let ghost own_before = own@;
            if one.source == source {
                assert(!seen.contains(one)) by {
                    if seen.contains(one) {
                        let j = choose|j: int| 0 <= j < seen.len() && seen[j] == one;
                        assert(before[j] == before[index as int]);
                    }
                }
                assert(!own@.contains(one.button)) by {
                    assert(one == (HeldButton { source, button: one.button }));
                }
                own.push(one.button);
                assert forall|button: u32| #[trigger] own@.contains(button) implies seen.push(
                    one,
                ).contains(HeldButton { source, button }) by {
                    if own_before.contains(button) {
                        let j = choose|j: int|
                            0 <= j < seen.len() && seen[j] == (HeldButton { source, button });
                        assert(seen.push(one)[j] == seen[j]);
                    } else {
                        let j = choose|j: int| 0 <= j < own@.len() && own@[j] == button;
                        assert(j == own_before.len()) by {
                            if j < own_before.len() {
                                assert(own_before[j] == button);
                            }
                        }
                        assert(seen.push(one)[seen.len() as int] == one);
                    }
                }
                assert forall|button: u32|
                    seen.push(one).contains(
                        HeldButton { source, button },
                    ) implies #[trigger] own@.contains(button) by {
                    let j = choose|j: int|
                        0 <= j < seen.push(one).len() && seen.push(one)[j] == (HeldButton {
                            source,
                            button,
                        });
                    if j < seen.len() {
                        assert(seen[j] == (HeldButton { source, button }));
                        assert(own_before.contains(button));
                        let k = choose|k: int| 0 <= k < own_before.len() && own_before[k] == button;
                        assert(own@[k] == button);
                    } else {
                        assert(own@[own_before.len() as int] == button);
                    }
                }
            } else {
                kept.push(one);
                assert forall|button: u32| #[trigger] own@.contains(button) <==> seen.push(
                    one,
                ).contains(HeldButton { source, button }) by {
                    if own@.contains(button) {
                        let j = choose|j: int|
                            0 <= j < seen.len() && seen[j] == (HeldButton { source, button });
                        assert(seen.push(one)[j] == seen[j]);
                    }
                    if seen.push(one).contains(HeldButton { source, button }) {
                        let j = choose|j: int|
                            0 <= j < seen.push(one).len() && seen.push(one)[j] == (HeldButton {
                                source,
                                button,
                            });
                        assert(seen[j] == (HeldButton { source, button }));
                    }
                }
            }
            index = index + 1;
        }
        assert(before.take(before.len() as int) =~= before);
        proof {
            lemma_kept(before, source);
        }
        self.held = kept;
        let mut released: Vec<u32> = Vec::new();
        let mut next: usize = 0;
        while next < own.len()
            invariant
                next <= own.len(),
                own@.no_duplicates(),
                released@.no_duplicates(),
                forall|button: u32| #[trigger]
                    released@.contains(button) <==> own@.take(next as int).contains(button)
                        && !is_down(self@, button),
            decreases own.len() - next,
        {
            let button: u32 = own[next];
            let ghost seen = own@.take(next as int);
            let ghost released_before = released@;
            assert(own@.take(next as int + 1) =~= seen.push(button));
            assert(!seen.contains(button)) by {
                if seen.contains(button) {
                    let j = choose|j: int| 0 <= j < seen.len() && seen[j] == button;
                    assert(own@[j] == own@[next as int]);
                }
            }
            assert(!released@.contains(button));
            broadcast use vstd::seq_lib::group_seq_properties;

            if !self.down(button) {
                released.push(button);
            }
            next = next + 1;
        }
        assert(own@.take(own@.len() as int) =~= own@);
        released
    }
}

proof fn lemma_push_held(held: Seq<HeldButton>, one: HeldButton)
    requires
        held.no_duplicates(),
        !held.to_set().contains(one),
    ensures
        held.push(one).no_duplicates(),
        held.push(one).to_set() == held.to_set().insert(one),
{
    broadcast use vstd::seq_lib::group_seq_properties;

    assert(held.push(one).to_set() =~= held.to_set().insert(one));
}

proof fn lemma_remove_held(held: Seq<HeldButton>, index: int)
    requires
        held.no_duplicates(),
        0 <= index < held.len(),
    ensures
        held.remove(index).no_duplicates(),
        held.remove(index).to_set() == held.to_set().remove(held[index]),
{
    let rest = held.remove(index);
    assert forall|one: HeldButton| rest.contains(one) <==> held.contains(one) && one
        != held[index] by {
        if rest.contains(one) {
            let j = choose|j: int| 0 <= j < rest.len() && rest[j] == one;
            let k = if j < index {
                j
            } else {
                j + 1
            };
            assert(held[k] == one);
        }
        if held.contains(one) && one != held[index] {
            let j = choose|j: int| 0 <= j < held.len() && held[j] == one;
            let k = if j < index {
                j
            } else {
                j - 1
            };
            assert(rest[k] == one);
        }
    }
    assert(rest.to_set() =~= held.to_set().remove(held[index]));
}

proof fn lemma_kept(held: Seq<HeldButton>, source: InputSource)
    requires
        held.no_duplicates(),
    ensures
        ({
            let kept = held.filter(|one: HeldButton| one.source != source);
            &&& kept.no_duplicates()
            &&& kept.to_set() == without_source(held.to_set(), source)
        }),
{
    broadcast use vstd::seq_lib::group_filter_ensures;

    let keep = |one: HeldButton| one.source != source;
    let kept = held.filter(keep);
    lemma_filter_keeps_distinct(held, keep);
    assert forall|one: HeldButton| kept.contains(one) <==> held.contains(one) && keep(one) by {
        if kept.contains(one) {
            let j = choose|j: int| 0 <= j < kept.len() && kept[j] == one;
            assert(keep(kept[j]));
        }
        if held.contains(one) && keep(one) {
            let j = choose|j: int| 0 <= j < held.len() && held[j] == one;
            assert(keep(held[j]));
            assert(kept.contains(held[j]));
        }
    }
    assert(kept.to_set() =~= without_source(held.to_set(), source));
}

proof fn lemma_filter_keeps_distinct(held: Seq<HeldButton>, keep: spec_fn(HeldButton) -> bool)
    requires
        held.no_duplicates(),
    ensures
        held.filter(keep).no_duplicates(),
        forall|one: HeldButton| #[trigger] held.filter(keep).contains(one) ==> held.contains(one),
    decreases held.len(),
{
    reveal(Seq::filter);
    if held.len() > 0 {
        let rest = held.drop_last();
        lemma_filter_keeps_distinct(rest, keep);
        let kept = rest.filter(keep);
        assert(!kept.contains(held.last())) by {
            if kept.contains(held.last()) {
                let j = choose|j: int| 0 <= j < rest.len() && rest[j] == held.last();
                assert(held[j] == held[held.len() - 1]);
            }
        }
        assert forall|one: HeldButton| #[trigger] held.filter(keep).contains(
            one,
        ) implies held.contains(one) by {
            let j = choose|j: int| 0 <= j < held.filter(keep).len() && held.filter(keep)[j] == one;
            if j < kept.len() {
                assert(kept[j] == one);
                assert(rest.filter(keep).contains(one));
                let k = choose|k: int| 0 <= k < rest.len() && rest[k] == one;
                assert(held[k] == one);
            } else {
                assert(held[held.len() - 1] == one);
            }
        }
    }
}

/// A button that two sources hold stays down until both have let go of it, and
/// only then is its release delivered.
pub proof fn law_button_is_released_by_its_last_holder(
    held: Set<HeldButton>,
    first: InputSource,
    second: InputSource,
    button: u32,
)
    requires
        first != second,
        !is_down(held, button),
    ensures
        ({
            let both = held.insert(HeldButton { source: first, button }).insert(
                HeldButton { source: second, button },
            );
            let one = after_button(both, first, button, ButtonState::Released);
            let none = after_button(one, second, button, ButtonState::Released);
            &&& is_down(both, button)
            &&& is_down(one, button)
            &&& !is_down(none, button)
        }),
{
    let both = held.insert(HeldButton { source: first, button }).insert(
        HeldButton { source: second, button },
    );
    let one = after_button(both, first, button, ButtonState::Released);
    let none = after_button(one, second, button, ButtonState::Released);
    assert(both.contains(HeldButton { source: second, button }));
    assert(one.contains(HeldButton { source: second, button }));
    assert forall|source: InputSource| !none.contains(HeldButton { source, button }) by {
        assert(!held.contains(HeldButton { source, button }));
    }
}

/// A source that let go of everything holds nothing, and the other sources hold
/// what they held.
pub proof fn law_release_spares_other_sources(
    held: Set<HeldButton>,
    source: InputSource,
    other: InputSource,
    button: u32,
)
    requires
        other != source,
    ensures
        !without_source(held, source).contains(HeldButton { source, button }),
        without_source(held, source).contains(HeldButton { source: other, button })
            == held.contains(HeldButton { source: other, button }),
{
}

/// The XKB code of an evdev key.
pub fn xkb_code(key: u32) -> (r: u32)
    requires
        key <= u32::MAX - XKB_OFFSET,
    ensures
        r == key + XKB_OFFSET,
        r == key + 8,
{
    key + XKB_OFFSET
}

/// How far an emulated wheel moved along one axis: in steps of a 120th notch, or
/// by an amount, of which only matters here whether it is zero.
#[derive(Clone, Copy, Debug, PartialEq, Eq, Structural)]
pub struct AxisAmount {
    pub v120: Option<i32>,
    pub amount_is_zero: Option<bool>,
}

/// What is delivered for one axis.
#[derive(Clone, Copy, Debug, PartialEq, Eq, Structural)]
pub enum AxisStep {
    /// Steps of a 120th notch, with an eighth of them as the value.
    V120 { steps: i32 },
    /// The motion along the axis ended.
    Stop,
    /// The amount as the device reported it.
    Value,
    Absent,
}

pub open spec fn axis_step_of(amount: AxisAmount) -> AxisStep {
    match (amount.v120, amount.amount_is_zero) {
        (Some(steps), _) => AxisStep::V120 { steps },
        (None, Some(true)) => AxisStep::Stop,
        (None, Some(false)) => AxisStep::Value,
        (None, None) => AxisStep::Absent,
    }
}

fn axis_step(amount: AxisAmount) -> (r: AxisStep)
    ensures
        r == axis_step_of(amount),
{
    match amount.v120 {
        Some(steps) => AxisStep::V120 { steps },
        None => match amount.amount_is_zero {
            Some(true) => AxisStep::Stop,
            Some(false) => AxisStep::Value,
            None => AxisStep::Absent,
        },
    }
}

/// What a connection of an emulated-input sender reports.
#[derive(Debug)]
pub enum EmulatedEvent {
    Connected,
    Disconnected,
    DeviceAdded { device: String },
    DeviceRemoved { device: String },
    Key { device: String, xkb_code: u32, state: ButtonState },
    Button { device: String, button: u32, state: ButtonState },
    Motion,
    MotionAbsolute,
    Axis { horizontal: AxisAmount, vertical: AxisAmount },
    /// Text, touch and whatever else the seat does not offer.
    Unsupported,
}

/// What the compositor does about it.
#[derive(Debug)]
pub enum EmulatedAction {
    Nothing,
    /// The sender gets a seat with a keyboard and both kinds of pointer.
    AddSeat,
    /// The sender's seat goes, and everything that its devices hold is released.
    RemoveSeat { release: Vec<InputSource> },
    /// What one device holds is released.
    Release { source: InputSource },
    /// A key, by its evdev code.
    Key { source: InputSource, key: u32, state: ButtonState },
    Button { source: InputSource, button: u32, state: ButtonState },
    /// The pointer moves by what the event says.
    MoveBy,
    /// The pointer moves to where the event says, in logical coordinates.
    MoveTo,
    Scroll { horizontal: AxisStep, vertical: AxisStep },
}

/// A device of a sender and the source that stands for it. Device names are unique
/// within a connection only.
#[derive(Debug)]
pub struct EmulatedDevice {
    pub name: String,
    pub source: InputSource,
}

/// One connection of an emulated-input sender.
#[derive(Debug)]
pub struct EmulatedConnection {
    pub devices: Vec<EmulatedDevice>,
}

pub open spec fn device_at(devices: Seq<EmulatedDevice>, name: Seq<char>, index: int) -> bool {
    0 <= index < devices.len() && devices[index].name@ == name
}

pub open spec fn source_map(devices: Seq<EmulatedDevice>) -> Map<Seq<char>, InputSource> {
    Map::new(
        |name: Seq<char>| exists|index: int| device_at(devices, name, index),
        |name: Seq<char>| devices[choose|index: int| device_at(devices, name, index)].source,
    )
}

/// The devices and the last allocated source after `device` was named.
pub open spec fn with_device(sources: Map<Seq<char>, InputSource>, last: int, device: Seq<char>) ->
    (Map<Seq<char>, InputSource>, int) {
    if sources.dom().contains(device) {
        (sources, last)
    } else {
        (sources.insert(device, InputSource { id: (last + 1) as u64 }), last + 1)
    }
}

pub open spec fn after_event(
    sources: Map<Seq<char>, InputSource>,
    last: int,
    event: EmulatedEvent,
) -> (Map<Seq<char>, InputSource>, int) {
    match event {
        EmulatedEvent::Disconnected => (Map::empty(), last),
        EmulatedEvent::DeviceAdded { device } => with_device(sources, last, device@),
        EmulatedEvent::DeviceRemoved { device } => (sources.remove(device@), last),
        EmulatedEvent::Key { device, .. } => with_device(sources, last, device@),
        EmulatedEvent::Button { device, .. } => with_device(sources, last, device@),
        _ => (sources, last),
    }
}

/// Whether an action is the one that an event asks for, given the devices before
/// and after it.
pub open spec fn answers(
    action: EmulatedAction,
    event: EmulatedEvent,
    before: Map<Seq<char>, InputSource>,
    after: Map<Seq<char>, InputSource>,
) -> bool {
    match event {
        EmulatedEvent::Connected => action is AddSeat,
        EmulatedEvent::Disconnected => action matches EmulatedAction::RemoveSeat { release }
            && release@.no_duplicates() && release@.to_set() == before.values(),
        EmulatedEvent::DeviceAdded { device } => action is Nothing,
        EmulatedEvent::DeviceRemoved { device } => if before.dom().contains(device@) {
            action == (EmulatedAction::Release { source: before[device@] })
        } else {
            action is Nothing
        },
        EmulatedEvent::Key { device, xkb_code, state } => action == (EmulatedAction::Key {
            source: after[device@],
            key: (xkb_code - XKB_OFFSET) as u32,
            state,
        }),
        EmulatedEvent::Button { device, button, state } => action == (EmulatedAction::Button {
            source: after[device@],
            button,
            state,
        }),
        EmulatedEvent::Motion => action is MoveBy,
        EmulatedEvent::MotionAbsolute => action is MoveTo,
        EmulatedEvent::Axis { horizontal, vertical } => action == (EmulatedAction::Scroll {
            horizontal: axis_step_of(horizontal),
            vertical: axis_step_of(vertical),
        }),
        EmulatedEvent::Unsupported => action is Nothing,
    }
}

impl EmulatedConnection {
    pub open spec fn wf(&self) -> bool {
        forall|i: int, j: int|
            0 <= i < j < self.devices.len() ==> (#[trigger] self.devices[i]).name@ != (
            #[trigger] self.devices[j]).name@ && self.devices[i].source != self.devices[j].source
    }

    /// Whether the devices' sources are among those allocated so far.
    pub open spec fn allocated(&self, last: u64) -> bool {
        forall|i: int|
            0 <= i < self.devices.len() ==> (#[trigger] self.devices[i]).source.id <= last
    }

    pub open spec fn view(&self) -> Map<Seq<char>, InputSource> {
        source_map(self.devices@)
    }

    pub fn new() -> (r: Self)
        ensures
            r.wf(),
            forall|last: u64| r.allocated(last),
            r@ == Map::<Seq<char>, InputSource>::empty(),
    {
        let devices: Vec<EmulatedDevice> = Vec::new();
        assert(source_map(devices@) =~= Map::<Seq<char>, InputSource>::empty());
        EmulatedConnection { devices }
    }

    proof fn lemma_lookup(self, index: int)
        requires
            self.wf(),
            0 <= index < self.devices.len(),
        ensures
            self@.dom().contains(self.devices[index].name@),
            self@[self.devices[index].name@] == self.devices[index].source,
    {
        let name = self.devices[index].name@;
        assert(device_at(self.devices@, name, index));
        let chosen = choose|i: int| device_at(self.devices@, name, i);
        assert(device_at(self.devices@, name, chosen));
        if chosen < index {
            assert(self.devices[chosen].name@ != self.devices[index].name@);
        } else if index < chosen {
            assert(self.devices[index].name@ != self.devices[chosen].name@);
        }
    }

    fn find(&self, name: &str) -> (r: Option<usize>)
        requires
            self.wf(),
        ensures
            match r {
                Some(index) => index < self.devices.len() && self.devices[index as int].name@
                    == name@ && self@.dom().contains(name@) && self@[name@]
                    == self.devices[index as int].source,
                None => !self@.dom().contains(name@),
            },
    {
        let mut index: usize = 0;
        while index < self.devices.len()
            invariant
                index <= self.devices.len(),
                self.wf(),
                forall|i: int| 0 <= i < index ==> (#[trigger] self.devices[i]).name@ != name@,
            decreases self.devices.len() - index,
        {
            if same_text(self.devices[index].name.as_str(), name) {
                proof {
                    self.lemma_lookup(index as int);
                }
                return Some(index);
            }
            index = index + 1;
        }
        assert(!self@.dom().contains(name@)) by {
            if self@.dom().contains(name@) {
                let i = choose|i: int| device_at(self.devices@, name@, i);
                assert(device_at(self.devices@, name@, i));
                assert(self.devices[i].name@ == name@);
            }
        }
        None
    }

    /// The source of a device, which gets one where it has none yet.
    fn source(&mut self, allocator: &mut SourceAllocator, name: String) -> (source: InputSource)
        requires
            old(self).wf(),
            old(self).allocated(old(allocator).last),
            old(allocator).last < u64::MAX,
        ensures
            final(self).wf(),
            final(self).allocated(final(allocator).last),
            (final(self)@, final(allocator).last as int) == with_device(
                old(self)@,
                old(allocator).last as int,
                name@,
            ),
            final(self)@.dom().contains(name@),
            source == final(self)@[name@],
    {
        match self.find(name.as_str()) {
            Some(index) => self.devices[index].source,
            None => {
                let ghost before = *self;
                let ghost key = name@;
                let source: InputSource = allocator.allocate();
                self.devices.push(EmulatedDevice { name, source });
                proof {
                    let last = self.devices.len() - 1;
                    assert forall|i: int, j: int|
                        0 <= i < j < self.devices.len() implies (#[trigger] self.devices[i]).name@
                        != (#[trigger] self.devices[j]).name@ && self.devices[i].source
                        != self.devices[j].source by {
                        assert(self.devices[i] == before.devices[i]);
                        if j < last {
                            assert(self.devices[j] == before.devices[j]);
                        } else {
                            before.lemma_lookup(i);
                        }
                    }
                    self.lemma_lookup(last);
                    assert forall|other: Seq<char>| #[trigger]
                        self@.dom().contains(other) == before@.insert(key, source).dom().contains(
                            other,
                        ) by {
                        if before@.dom().contains(other) {
                            let i = choose|i: int| device_at(before.devices@, other, i);
                            assert(device_at(before.devices@, other, i));
                            assert(device_at(self.devices@, other, i));
                        }
                        if self@.dom().contains(other) && other != key {
                            let i = choose|i: int| device_at(self.devices@, other, i);
                            assert(device_at(self.devices@, other, i));
                            assert(device_at(before.devices@, other, i));
                        }
                    }
                    assert forall|other: Seq<char>|
                        self@.dom().contains(other) implies #[trigger] self@[other]
                        == before@.insert(key, source)[other] by {
                        let i = choose|i: int| device_at(self.devices@, other, i);
                        assert(device_at(self.devices@, other, i));
                        self.lemma_lookup(i);
                        if i < last {
                            before.lemma_lookup(i);
                        }
                    }
                    assert(self@ =~= before@.insert(key, source));
                }
                source
            },
        }
    }

    /// Takes an event of the sender in. A device gets a source of its own when it is
    /// first named, and what a device or a whole connection held is released when
    /// it goes.
    pub fn handle(&mut self, allocator: &mut SourceAllocator, event: EmulatedEvent) -> (action:
        EmulatedAction)
        requires
            old(self).wf(),
            old(self).allocated(old(allocator).last),
            old(allocator).last < u64::MAX,
            event matches EmulatedEvent::Key { xkb_code, .. } ==> xkb_code >= XKB_OFFSET,
        ensures
            final(self).wf(),
            final(self).allocated(final(allocator).last),
            (final(self)@, final(allocator).last as int) == after_event(
                old(self)@,
                old(allocator).last as int,
                event,
            ),
            answers(action, event, old(self)@, final(self)@),
    {
        match event {
            EmulatedEvent::Connected => EmulatedAction::AddSeat,
            EmulatedEvent::Disconnected => {
                let release: Vec<InputSource> = self.all_sources();
                let mut none: Vec<EmulatedDevice> = Vec::new();
                std::mem::swap(&mut self.devices, &mut none);
                assert(self@ =~= Map::<Seq<char>, InputSource>::empty());
                EmulatedAction::RemoveSeat { release }
            },
            EmulatedEvent::DeviceAdded { device } => {
                self.source(allocator, device);
                EmulatedAction::Nothing
            },
            EmulatedEvent::DeviceRemoved { device } => match self.remove(device.as_str()) {
                Some(source) => EmulatedAction::Release { source },
                None => EmulatedAction::Nothing,
            },
            EmulatedEvent::Key { device, xkb_code, state } => {
                let source: InputSource = self.source(allocator, device);
                EmulatedAction::Key { source, key: xkb_code - XKB_OFFSET, state }
            },
            EmulatedEvent::Button { device, button, state } => {
                let source: InputSource = self.source(allocator, device);
                EmulatedAction::Button { source, button, state }
            },
            EmulatedEvent::Motion => EmulatedAction::MoveBy,
            EmulatedEvent::MotionAbsolute => EmulatedAction::MoveTo,
            EmulatedEvent::Axis { horizontal, vertical } => EmulatedAction::Scroll {
                horizontal: axis_step(horizontal),
                vertical: axis_step(vertical),
            },
            EmulatedEvent::Unsupported => EmulatedAction::Nothing,
        }
    }

    fn all_sources(&self) -> (sources: Vec<InputSource>)
        requires
            self.wf(),
        ensures
            sources@.no_duplicates(),
            sources@.to_set() == self@.values(),
    {
        let mut sources: Vec<InputSource> = Vec::new();
        let mut index: usize = 0;
        while index < self.devices.len()
            invariant
                index <= self.devices.len(),
                sources.len() == index,
                forall|i: int| 0 <= i < index ==> #[trigger] sources[i] == self.devices[i].source,
            decreases self.devices.len() - index,
        {
            sources.push(self.devices[index].source);
            index = index + 1;
        }
        proof {
            assert forall|i: int, j: int|
                0 <= i < sources.len() && 0 <= j < sources.len() && i != j implies sources@[i]
                != sources@[j] by {
                assert(sources[i] == self.devices[i].source);
                assert(sources[j] == self.devices[j].source);
                if i < j {
                    assert(self.devices[i].source != self.devices[j].source);
                } else {
                    assert(self.devices[j].source != self.devices[i].source);
                }
            }
            assert forall|source: InputSource|
                sources@.to_set().contains(source) == self@.values().contains(source) by {
                if sources@.contains(source) {
                    let i = choose|i: int| 0 <= i < sources.len() && sources@[i] == source;
                    assert(sources[i] == self.devices[i].source);
                    self.lemma_lookup(i);
                }
                if self@.values().contains(source) {
                    let name = choose|name: Seq<char>|
                        self@.dom().contains(name) && self@[name] == source;
                    let i = choose|i: int| device_at(self.devices@, name, i);
                    assert(device_at(self.devices@, name, i));
                    self.lemma_lookup(i);
                    assert(sources[i] == source);
                }
            }
            assert(sources@.to_set() =~= self@.values());
        }
        sources
    }

    fn remove(&mut self, name: &str) -> (r: Option<InputSource>)
        requires
            old(self).wf(),
        ensures
            final(self).wf(),
            forall|last: u64| #[trigger] old(self).allocated(last) ==> final(self).allocated(last),
            final(self)@ == old(self)@.remove(name@),
            r == if old(self)@.dom().contains(name@) {
                Some(old(self)@[name@])
            } else {
                None
            },
    {
        match self.find(name) {
            Some(index) => {
                let ghost before = *self;
                let device: EmulatedDevice = self.devices.remove(index);
                proof {
                    assert forall|i: int, j: int|
                        0 <= i < j < self.devices.len() implies (#[trigger] self.devices[i]).name@
                        != (#[trigger] self.devices[j]).name@ && self.devices[i].source
                        != self.devices[j].source by {
                        let a = if i < index {
                            i
                        } else {
                            i + 1
                        };
                        let b = if j < index {
                            j
                        } else {
                            j + 1
                        };
                        assert(self.devices[i] == before.devices[a]);
                        assert(self.devices[j] == before.devices[b]);
                    }
                    assert forall|other: Seq<char>| #[trigger]
                        self@.dom().contains(other) == before@.remove(name@).dom().contains(
                            other,
                        ) by {
                        if before@.dom().contains(other) && other != name@ {
                            let i = choose|i: int| device_at(before.devices@, other, i);
                            assert(device_at(before.devices@, other, i));
                            let k = if i < index {
                                i
                            } else {
                                i - 1
                            };
                            assert(device_at(self.devices@, other, k));
                        }
                        if self@.dom().contains(other) {
                            let i = choose|i: int| device_at(self.devices@, other, i);
                            assert(device_at(self.devices@, other, i));
                            let k = if i < index {
                                i
                            } else {
                                i + 1
                            };
                            assert(device_at(before.devices@, other, k));
                            assert(before.devices[k].name@ != before.devices[index as int].name@)
                                by {
                                if k < index {
                                } else {
                                    assert(before.devices[index as int].name@
                                        != before.devices[k].name@);
                                }
                            }
                        }
                    }
                    assert forall|other: Seq<char>|
                        self@.dom().contains(other) implies #[trigger] self@[other]
                        == before@.remove(name@)[other] by {
                        let i = choose|i: int| device_at(self.devices@, other, i);
                        assert(device_at(self.devices@, other, i));
                        self.lemma_lookup(i);
                        before.lemma_lookup(
                            if i < index {
                                i
                            } else {
                                i + 1
                            },
                        );
                    }
                    assert(self@ =~= before@.remove(name@));
                }
                Some(device.source)
            },
            None => {
                assert(self@ =~= self@.remove(name@));
                None
            },
        }
    }
}

/// A device keeps its source for as long as it is known, whatever other devices do.
pub proof fn law_devices_keep_their_source(
    sources: Map<Seq<char>, InputSource>,
    last: int,
    event: EmulatedEvent,
    device: Seq<char>,
)
    requires
        sources.dom().contains(device),
        !(event is Disconnected),
        !(event matches EmulatedEvent::DeviceRemoved { device: removed } && removed@ == device),
    ensures
        after_event(sources, last, event).0.dom().contains(device),
        after_event(sources, last, event).0[device] == sources[device],
{
}

/// Whether a source holds a button.
pub open spec fn holds(held: Set<HeldButton>, source: InputSource, button: u32) -> bool {
    held.contains(HeldButton { source, button })
}

/// A press or release concerns one button of one source: that one is held or not as the
/// event says, and everything else is held as before.
pub proof fn law_buttons_are_held_by_their_sources(
    held: Set<HeldButton>,
    source: InputSource,
    button: u32,
    state: ButtonState,
    other: InputSource,
    another: u32,
)
    ensures
        holds(after_button(held, source, button, state), source, button) <==> state
            == ButtonState::Pressed,
        other != source || another != button ==> holds(
            after_button(held, source, button, state),
            other,
            another,
        ) == holds(held, other, another),
        holds(held, other, another) ==> is_down(held, another),
        is_down(held, another) ==> exists|one: InputSource| holds(held, one, another),
{
    if is_down(held, another) {
        let one = choose|one: InputSource| held.contains(
            HeldButton { source: one, button: another },
        );
        assert(holds(held, one, another));
    }
}

/// On a seat with a pointer no change of a button is lost: whatever the button, the
/// event and the pointer, the event is ignored exactly where some source held the
/// button before as one does after. A seat without a pointer ignores every event.
pub proof fn law_button_changes_are_never_ignored(
    held: Set<HeldButton>,
    source: InputSource,
    button: u32,
    state: ButtonState,
    pointer: PointerState,
)
    ensures
        ({
            let after = after_button(held, source, button, state);
            let before_down = exists|one: InputSource| holds(held, one, button);
            let after_down = exists|one: InputSource| holds(after, one, button);
            let changed = is_down(held, button) != is_down(after, button);
            &&& button_plan(changed, button, state, Some(pointer)) is Ignore <==> before_down
                == after_down
            &&& button_plan(changed, button, state, None) is Ignore
        }),
{
    let after = after_button(held, source, button, state);
    assert(is_down(held, button) == exists|one: InputSource| holds(held, one, button)) by {
        if is_down(held, button) {
            let one = choose|one: InputSource| held.contains(HeldButton { source: one, button });
            assert(holds(held, one, button));
        }
    }
    assert(is_down(after, button) == exists|one: InputSource| holds(after, one, button)) by {
        if is_down(after, button) {
            let one = choose|one: InputSource| after.contains(HeldButton { source: one, button });
            assert(holds(after, one, button));
        }
    }
}

/// The left button, 0x110, works a decoration under the pointer when it goes down and
/// no grab holds the pointer. Any other change is delivered as it is, and a press that
/// no grab holds focuses the window under the pointer first.
pub proof fn law_free_left_presses_work_decorations(
    button: u32,
    state: ButtonState,
    pointer: PointerState,
)
    ensures
        ({
            let plan = button_plan(true, button, state, Some(pointer));
            let free_press = state == ButtonState::Pressed && !pointer.grabbed;
            &&& plan is Decoration <==> free_press && button == 0x110 && pointer.decoration is Some
            &&& plan is Decoration ==> plan == ButtonPlan::Decoration {
                window: pointer.decoration->0.window,
                action: pointer.decoration->0.action,
            }
            &&& !(plan is Decoration) ==> plan == ButtonPlan::Deliver { refocus: free_press }
        }),
{
}

/// A source that presses a button which nobody holds and then lets go of it has both
/// delivered, wherever the pointer is by then.
pub proof fn law_presses_are_followed_by_releases(
    held: Set<HeldButton>,
    source: InputSource,
    button: u32,
    first: PointerState,
    second: PointerState,
)
    requires
        !is_down(held, button),
    ensures
        ({
            let pressed = after_button(held, source, button, ButtonState::Pressed);
            let released = after_button(pressed, source, button, ButtonState::Released);
            let down = button_plan(
                is_down(held, button) != is_down(pressed, button),
                button,
                ButtonState::Pressed,
                Some(first),
            );
            let up = button_plan(
                is_down(pressed, button) != is_down(released, button),
                button,
                ButtonState::Released,
                Some(second),
            );
            &&& !(down is Ignore)
            &&& up == ButtonPlan::Deliver { refocus: false }
            &&& released == held
        }),
{
    let pressed = after_button(held, source, button, ButtonState::Pressed);
    let released = after_button(pressed, source, button, ButtonState::Released);
    assert(pressed.contains(HeldButton { source, button }));
    assert(!held.contains(HeldButton { source, button }));
    assert(released =~= held);
}

/// One event of a source on a seat with a pointer.
pub struct ButtonCall {
    pub source: InputSource,
    pub button: u32,
    pub state: ButtonState,
    pub pointer: PointerState,
}

/// What is held after the events, starting from nothing.
pub open spec fn held_after(calls: Seq<ButtonCall>) -> Set<HeldButton>
    decreases calls.len(),
{
    if calls.len() == 0 {
        Set::empty()
    } else {
        let call = calls.last();
        after_button(held_after(calls.drop_last()), call.source, call.button, call.state)
    }
}

/// The changes of one button that the seat is told.
pub open spec fn told(calls: Seq<ButtonCall>, button: u32) -> Seq<ButtonState>
    decreases calls.len(),
{
    if calls.len() == 0 {
        Seq::empty()
    } else {
        let call = calls.last();
        let earlier = calls.drop_last();
        let before = held_after(earlier);
        let after = held_after(calls);
        let plan = button_plan(
            is_down(before, call.button) != is_down(after, call.button),
            call.button,
            call.state,
            Some(call.pointer),
        );
        if call.button == button && !(plan is Ignore) {
            told(earlier, button).push(call.state)
        } else {
            told(earlier, button)
        }
    }
}

/// Whatever the sources do in whatever order, the seat sees each button go down and up
/// in turn, starting with down, and the last that it was told is whether some source
/// holds the button.
pub proof fn law_the_seat_sees_buttons_go_down_and_up(calls: Seq<ButtonCall>, button: u32)
    ensures
        forall|i: int|
            0 <= i < told(calls, button).len() ==> #[trigger] told(calls, button)[i] == if i % 2
                == 0 {
                ButtonState::Pressed
            } else {
                ButtonState::Released
            },
        (told(calls, button).len() % 2 == 1) == is_down(held_after(calls), button),
    decreases calls.len(),
{
    if calls.len() == 0 {
        assert(forall|source: InputSource|
            !held_after(calls).contains(HeldButton { source, button }));
    } else {
        let call = calls.last();
        let earlier = calls.drop_last();
        law_the_seat_sees_buttons_go_down_and_up(earlier, button);
        let before = held_after(earlier);
        let after = held_after(calls);
        let one = HeldButton { source: call.source, button: call.button };
        if call.button != button {
            assert(is_down(after, button) == is_down(before, button)) by {
                if is_down(before, button) {
                    let source = choose|source: InputSource|
                        before.contains(HeldButton { source, button });
                    assert(after.contains(HeldButton { source, button }));
                }
                if is_down(after, button) {
                    let source = choose|source: InputSource|
                        after.contains(HeldButton { source, button });
                    assert(before.contains(HeldButton { source, button }));
                }
            }
        } else if call.state == ButtonState::Pressed {
            assert(after.contains(one));
            assert(is_down(after, button));
        } else if is_down(after, button) {
            let source = choose|source: InputSource| after.contains(HeldButton { source, button });
            assert(before.contains(HeldButton { source, button }));
            assert(is_down(before, button));
        }
    }
}

/// Whether the event at that place is the last one of a source on a button.
pub open spec fn last_event(
    calls: Seq<ButtonCall>,
    source: InputSource,
    button: u32,
    i: int,
) -> bool {
    &&& 0 <= i < calls.len()
    &&& calls[i].source == source && calls[i].button == button
    &&& forall|j: int|
        i < j < calls.len() ==> (#[trigger] calls[j]).source != source || calls[j].button != button
}

/// A source holds a button after its last event on that button was a press, and does
/// not where that was a release or where there was none.
pub proof fn law_the_last_event_decides(
    calls: Seq<ButtonCall>,
    source: InputSource,
    button: u32,
    i: int,
)
    ensures
        last_event(calls, source, button, i) ==> holds(held_after(calls), source, button) == (
        calls[i].state == ButtonState::Pressed),
        (forall|j: int|
            0 <= j < calls.len() ==> (#[trigger] calls[j]).source != source || calls[j].button
                != button) ==> !holds(held_after(calls), source, button),
    decreases calls.len(),
{
    if calls.len() > 0 {
        let last = calls.len() - 1;
        let earlier = calls.drop_last();
        let call = calls[last];
        law_the_last_event_decides(earlier, source, button, i);
        if last_event(calls, source, button, i) && i < last {
            assert(call.source != source || call.button != button);
            assert(earlier[i] == calls[i]);
            assert forall|j: int| i < j < earlier.len() implies (#[trigger] earlier[j]).source
                != source || earlier[j].button != button by {
                assert(earlier[j] == calls[j]);
            }
            assert(last_event(earlier, source, button, i));
        }
        if forall|j: int|
            0 <= j < calls.len() ==> (#[trigger] calls[j]).source != source || calls[j].button
                != button {
            assert(call.source != source || call.button != button);
            assert forall|j: int| 0 <= j < earlier.len() implies (#[trigger] earlier[j]).source
                != source || earlier[j].button != button by {
                assert(earlier[j] == calls[j]);
            }
        }
    }
}

/// Whether every device has a source of its own, none of them the browser's, out of
/// those allocated so far.
pub open spec fn own_sources(sources: Map<Seq<char>, InputSource>, last: int) -> bool {
    &&& forall|name: Seq<char>| #[trigger]
        sources.dom().contains(name) ==> 1 <= sources[name].id <= last
    &&& forall|a: Seq<char>, b: Seq<char>| #[trigger]
        sources.dom().contains(a) && #[trigger] sources.dom().contains(b) && a != b
            ==> sources[a] != sources[b]
}

/// Whatever a sender reports, its devices have sources of their own: no two share one,
/// none has the browser's, and a device that comes again gets one that was never used.
pub proof fn law_devices_have_sources_of_their_own(
    sources: Map<Seq<char>, InputSource>,
    last: int,
    event: EmulatedEvent,
    name: Seq<char>,
)
    requires
        0 <= last < u64::MAX,
        own_sources(sources, last),
    ensures
        ({
            let (after, next) = after_event(sources, last, event);
            &&& own_sources(after, next)
            &&& last <= next <= last + 1
            &&& after.dom().contains(name) ==> after[name].id > main_source().id
            &&& after.dom().contains(name) && !sources.dom().contains(name) ==> after[name].id
                == last + 1 && next == last + 1
        }),
        own_sources(Map::empty(), 0),
{
}

/// The devices that a sender names are known until they are removed or the sender goes;
/// nothing else adds or removes one.
pub proof fn law_devices_are_known_from_their_first_event(
    sources: Map<Seq<char>, InputSource>,
    last: int,
    event: EmulatedEvent,
    name: Seq<char>,
)
    ensures
        ({
            let known = sources.dom().contains(name);
            let after = after_event(sources, last, event).0.dom().contains(name);
            match event {
                EmulatedEvent::Disconnected => !after,
                EmulatedEvent::DeviceRemoved { device } => after == (known && name != device@),
                EmulatedEvent::DeviceAdded { device } => after == (known || name == device@),
                EmulatedEvent::Key { device, .. } => after == (known || name == device@),
                EmulatedEvent::Button { device, .. } => after == (known || name == device@),
                EmulatedEvent::Connected | EmulatedEvent::Motion | EmulatedEvent::MotionAbsolute
                | EmulatedEvent::Axis { .. } | EmulatedEvent::Unsupported => after == known,
            }
        }),
{
}

/// Keys and buttons of a device are delivered in its own name, keys eight below their
/// XKB code; a device or a sender that goes has what it holds released.
pub proof fn law_emulated_input_is_delivered_for_its_device(
    sources: Map<Seq<char>, InputSource>,
    last: int,
    event: EmulatedEvent,
    action: EmulatedAction,
)
    requires
        0 <= last < u64::MAX,
        answers(action, event, sources, after_event(sources, last, event).0),
        event matches EmulatedEvent::Key { xkb_code, .. } ==> xkb_code >= 8,
    ensures
        ({
            let after = after_event(sources, last, event).0;
            match event {
                EmulatedEvent::Connected => action is AddSeat,
                EmulatedEvent::Disconnected => action is RemoveSeat && forall|source: InputSource|
                    action->release@.contains(source) <==> exists|name: Seq<char>|
                        sources.dom().contains(name) && #[trigger] sources[name] == source,
                EmulatedEvent::DeviceAdded { .. } => action is Nothing,
                EmulatedEvent::DeviceRemoved { device } => if sources.dom().contains(device@) {
                    action == (EmulatedAction::Release { source: sources[device@] })
                } else {
                    action is Nothing
                },
                EmulatedEvent::Key { device, xkb_code, state } => action matches EmulatedAction::Key {
                    source,
                    key,
                    state: told,
                } && source == after[device@] && key + 8 == xkb_code && told == state && (
                sources.dom().contains(device@) ==> source == sources[device@]),
                EmulatedEvent::Button { device, button, state } => {
                    &&& action == (EmulatedAction::Button { source: after[device@], button, state })
                    &&& sources.dom().contains(device@) ==> after[device@] == sources[device@]
                },
                EmulatedEvent::Motion => action is MoveBy,
                EmulatedEvent::MotionAbsolute => action is MoveTo,
                EmulatedEvent::Axis { horizontal, vertical } => action == (EmulatedAction::Scroll {
                    horizontal: axis_step_of(horizontal),
                    vertical: axis_step_of(vertical),
                }),
                EmulatedEvent::Unsupported => action is Nothing,
            }
        }),
{
    if event is Disconnected {
        let release = action->release@;
        assert forall|source: InputSource| release.contains(source) <==> exists|name: Seq<char>|
            sources.dom().contains(name) && #[trigger] sources[name] == source by {
            assert(release.contains(source) == release.to_set().contains(source));
            assert(release.to_set().contains(source) == sources.values().contains(source));
            if sources.values().contains(source) {
                let name = choose|name: Seq<char>|
                    sources.dom().contains(name) && #[trigger] sources[name] == source;
                assert(sources[name] == source);
            }
        }
    }
}

/// Wheels are told in 120ths of a notch where the device counts them; else a zero
/// amount ends the motion, any other is its value, and an axis without one is absent.
pub proof fn law_wheels_count_in_notches(amount: AxisAmount)
    ensures
        amount.v120 matches Some(steps) ==> axis_step_of(amount) == (AxisStep::V120 { steps }),
        amount.v120 is None ==> {
            &&& axis_step_of(amount) is Stop <==> amount.amount_is_zero == Some(true)
            &&& axis_step_of(amount) is Value <==> amount.amount_is_zero == Some(false)
            &&& axis_step_of(amount) is Absent <==> amount.amount_is_zero is None
        },
{
}

/// A source that lets go of everything has the seat told exactly the buttons that it
/// alone held, each once; the others stay with their sources.
pub proof fn law_letting_go_releases_what_nobody_else_holds(
    held: Set<HeldButton>,
    source: InputSource,
    after: Set<HeldButton>,
    released: Seq<u32>,
    button: u32,
    other: InputSource,
)
    requires
        lets_go(held, source, after, released),
    ensures
        !holds(after, source, button),
        other != source ==> holds(after, other, button) == holds(held, other, button),
        released.contains(button) ==> holds(held, source, button),
        released.contains(button) && other != source ==> !holds(held, other, button),
        holds(held, source, button) && (forall|one: InputSource|
            one != source ==> !#[trigger] holds(held, one, button)) ==> released.contains(button),
{
    if holds(held, source, button) && (forall|one: InputSource|
        one != source ==> !#[trigger] holds(held, one, button)) {
        assert forall|one: InputSource| !after.contains(HeldButton { source: one, button }) by {
            if one != source {
                assert(!holds(held, one, button));
                assert(!held.contains(HeldButton { source: one, button }));
            }
        }
        assert(!is_down(after, button));
    }
    if released.contains(button) && other != source && holds(held, other, button) {
        assert(after.contains(HeldButton { source: other, button }));
        assert(is_down(after, button));
    }
}

} // verus!
