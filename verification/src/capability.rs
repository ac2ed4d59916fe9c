use crate::logging::Level;
use vstd::prelude::*;

verus! {

/// One named operation that the plugin exposes to scripts.
#[derive(Clone, Copy, Debug, PartialEq, Eq, Structural)]
pub enum Capability {
    /// `sleep(ms)`: blocks the calling thread.
    Sleep,
    /// `mouse_move(x, y)`: moves the pointer.
    MouseMove,
    /// `drag_and_drop(x, y)`: drags from the pointer's position to the target.
    DragAndDrop,
    /// `mouse_click_left()`: clicks the primary button.
    MouseClickLeft,
    /// `mouse_click_right()`: clicks the secondary button.
    MouseClickRight,
    /// `press_key(code)`: presses and releases a key.
    PressKey,
    /// `trace(msg)`, `debug(msg)`, `info(msg)`, `warn(msg)`, `error(msg)`: writes to the log.
    Log(Level),
    /// `discord_send(url, username, message)`: posts to a webhook.
    DiscordSend,
}

impl Capability {
    /// The name under which scripts call the capability.
    pub open spec fn spec_name(self) -> Seq<char> {
        match self {
            Capability::Sleep => "sleep"@,
            Capability::MouseMove => "mouse_move"@,
            Capability::DragAndDrop => "drag_and_drop"@,
            Capability::MouseClickLeft => "mouse_click_left"@,
            Capability::MouseClickRight => "mouse_click_right"@,
            Capability::PressKey => "press_key"@,
            Capability::Log(level) => level.spec_name(),
            Capability::DiscordSend => "discord_send"@,
        }
    }

    /// The number of arguments that a script passes to the capability.
    pub open spec fn spec_arity(self) -> nat {
        match self {
            Capability::Sleep => 1,
            Capability::MouseMove => 2,
            Capability::DragAndDrop => 2,
            Capability::MouseClickLeft => 0,
            Capability::MouseClickRight => 0,
            Capability::PressKey => 1,
            Capability::Log(_) => 1,
            Capability::DiscordSend => 3,
        }
    }

    /// Every capability, once, in the order in which a registration call creates them.
    pub open spec fn registration_order() -> Seq<Capability> {
        seq![
            Capability::Sleep,
            Capability::MouseMove,
            Capability::DragAndDrop,
            Capability::MouseClickLeft,
            Capability::MouseClickRight,
            Capability::PressKey,
            Capability::Log(Level::Info),
            Capability::Log(Level::Warn),
            Capability::Log(Level::Trace),
            Capability::Log(Level::Debug),
            Capability::Log(Level::Error),
            Capability::DiscordSend,
        ]
    }

    /// The place of the capability in the registration order.
    pub open spec fn spec_index(self) -> int {
        match self {
            Capability::Sleep => 0,
            Capability::MouseMove => 1,
            Capability::DragAndDrop => 2,
            Capability::MouseClickLeft => 3,
            Capability::MouseClickRight => 4,
            Capability::PressKey => 5,
            Capability::Log(Level::Info) => 6,
            Capability::Log(Level::Warn) => 7,
            Capability::Log(Level::Trace) => 8,
            Capability::Log(Level::Debug) => 9,
            Capability::Log(Level::Error) => 10,
            Capability::DiscordSend => 11,
        }
    }

    /// The name under which scripts call the capability.
    pub fn name(self) -> (r: &'static str)
        ensures
            r@ == self.spec_name(),
    {
        match self {
            Capability::Sleep => "sleep",
            Capability::MouseMove => "mouse_move",
            Capability::DragAndDrop => "drag_and_drop",
            Capability::MouseClickLeft => "mouse_click_left",
            Capability::MouseClickRight => "mouse_click_right",
            Capability::PressKey => "press_key",
            Capability::Log(level) => level.name(),
            Capability::DiscordSend => "discord_send",
        }
    }

    /// The number of arguments that a script passes to the capability.
    pub fn arity(self) -> (n: usize)
        ensures
            n == self.spec_arity(),
    {
        match self {
            Capability::Sleep => 1,
            Capability::MouseMove => 2,
            Capability::DragAndDrop => 2,
            Capability::MouseClickLeft => 0,
            Capability::MouseClickRight => 0,
            Capability::PressKey => 1,
            Capability::Log(_) => 1,
            Capability::DiscordSend => 3,
        }
    }

    /// The place of the capability in the registration order.
    pub fn index(self) -> (i: usize)
        ensures
            i == self.spec_index(),
            Capability::registration_order()[i as int] == self,
    {
        match self {
            Capability::Sleep => 0,
            Capability::MouseMove => 1,
            Capability::DragAndDrop => 2,
            Capability::MouseClickLeft => 3,
            Capability::MouseClickRight => 4,
            Capability::PressKey => 5,
            Capability::Log(Level::Info) => 6,
            Capability::Log(Level::Warn) => 7,
            Capability::Log(Level::Trace) => 8,
            Capability::Log(Level::Debug) => 9,
            Capability::Log(Level::Error) => 10,
            Capability::DiscordSend => 11,
        }
    }

    /// Every capability, once, in the order in which a registration call creates them.
    pub fn all() -> (order: Vec<Capability>)
        ensures
            order@ == Capability::registration_order(),
    {
        let mut order: Vec<Capability> = Vec::new();
        order.push(Capability::Sleep);
        order.push(Capability::MouseMove);
        order.push(Capability::DragAndDrop);
        order.push(Capability::MouseClickLeft);
        order.push(Capability::MouseClickRight);
        order.push(Capability::PressKey);
        order.push(Capability::Log(Level::Info));
        order.push(Capability::Log(Level::Warn));
        order.push(Capability::Log(Level::Trace));
        order.push(Capability::Log(Level::Debug));
        order.push(Capability::Log(Level::Error));
        order.push(Capability::DiscordSend);
        assert(order@ =~= Capability::registration_order());
        order
    }
}

/// The registration order lists every capability, at the place that its index gives.
pub proof fn lemma_order_is_complete(capability: Capability)
    ensures
        0 <= capability.spec_index() < Capability::registration_order().len(),
        Capability::registration_order().len() == 12,
        Capability::registration_order()[capability.spec_index()] == capability,
{
}

/// No capability stands twice in the registration order.
pub proof fn lemma_order_has_no_duplicates()
    ensures
        Capability::registration_order().no_duplicates(),
{
    let order = Capability::registration_order();
    assert forall|i: int, j: int|
        0 <= i < order.len() && 0 <= j < order.len() && i != j implies order[i] != order[j] by {
        assert(order[i].spec_index() == i);
        assert(order[j].spec_index() == j);
    }
}

/// Two capabilities never answer to the same name.
pub proof fn lemma_names_are_distinct(a: Capability, b: Capability)
    requires
        a != b,
    ensures
        a.spec_name() != b.spec_name(),
{
    reveal_strlit("sleep");
    reveal_strlit("mouse_move");
    reveal_strlit("drag_and_drop");
    reveal_strlit("mouse_click_left");
    reveal_strlit("mouse_click_right");
    reveal_strlit("press_key");
    reveal_strlit("trace");
    reveal_strlit("debug");
    reveal_strlit("info");
    reveal_strlit("warn");
    reveal_strlit("error");
    reveal_strlit("discord_send");
    let x = a.spec_name();
    let y = b.spec_name();
    if x.len() == y.len() {
        assert(x[0] != y[0]);
    }
}

} // verus!
