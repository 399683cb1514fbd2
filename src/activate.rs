use crate::hardware::{bind, HardWare, KeyBoardKey};
use crate::midiinput::MidiInput;
use vstd::prelude::*;

verus! {

/// Requests from the control surface to the activator.
#[derive(Clone, Copy, Debug, PartialEq, Eq, Structural)]
pub enum MessageToActivator {
    LetMidiThrough,
    BlockMidi,
    /// Bind the next controller that moves to the switch
    ChangeActivationMidiKey,
}

/// What the control surface should show after an event.
#[derive(Clone, Copy, Debug, PartialEq, Eq, Structural)]
pub enum ActivatorNotice {
    Nothing,
    ShowMidiThrough,
    ShowMidiBlocked,
}

/// Lets MIDI through or blocks it, switched by the controller bound to `Record`.
pub struct Activator {
    /// MIDI goes through
    active: bool,
    /// The next controller to move becomes the switch
    key_change: bool,
    keyboard: HardWare,
}

impl Activator {
    pub closed spec fn active_spec(&self) -> bool {
        self.active
    }

    pub closed spec fn key_change_spec(&self) -> bool {
        self.key_change
    }

    pub closed spec fn controls(&self) -> Map<u8, KeyBoardKey> {
        self.keyboard.controls()
    }

    pub closed spec fn wf(&self) -> bool {
        self.keyboard.wf()
    }

    /// An activator that lets MIDI through and has no switch.
    pub fn new() -> (r: Activator)
        ensures
            r.wf(),
            r.active_spec(),
            !r.key_change_spec(),
            r.controls() == Map::<u8, KeyBoardKey>::empty(),
    {
        Activator { active: true, key_change: false, keyboard: HardWare::new() }
    }

    /// MIDI goes through.
    pub fn is_active(&self) -> (r: bool)
        ensures
            r == self.active_spec(),
    {
        self.active
    }

    /// Apply a request from the control surface.
    pub fn apply_message(&mut self, message: MessageToActivator)
        requires
            old(self).wf(),
        ensures
            final(self).wf(),
            final(self).controls() == old(self).controls(),
            final(self).active_spec() == match message {
                MessageToActivator::LetMidiThrough => true,
                MessageToActivator::BlockMidi => false,
                MessageToActivator::ChangeActivationMidiKey => old(self).active_spec(),
            },
            final(self).key_change_spec() == (message == MessageToActivator::ChangeActivationMidiKey
                || old(self).key_change_spec()),
    {
        match message {
            MessageToActivator::LetMidiThrough => self.active = true,
            MessageToActivator::BlockMidi => self.active = false,
            MessageToActivator::ChangeActivationMidiKey => self.key_change = true,
        }
    }

    /// Act on one MIDI event. A controller is first made the switch if one is
    /// awaited; then a press of the switch lets MIDI through when it was
    /// blocked and blocks it when it went through.
    pub fn handle_midi(&mut self, event: MidiInput) -> (r: ActivatorNotice)
        requires
            old(self).wf(),
        ensures
            final(self).wf(),
            match event {
                MidiInput::Controller { control, value, .. } => {
                    let controls = if old(self).key_change_spec() {
                        bind(old(self).controls(), KeyBoardKey::Record, control)
                    } else {
                        old(self).controls()
                    };
                    let pressed = value > 0 && controls.contains_key(control) && controls[control]
                        == KeyBoardKey::Record;
                    &&& final(self).controls() == controls
                    &&& !final(self).key_change_spec()
                    &&& final(self).active_spec() == (old(self).active_spec() != pressed)
                    &&& r == if !pressed {
                        ActivatorNotice::Nothing
                    } else if old(self).active_spec() {
                        ActivatorNotice::ShowMidiBlocked
                    } else {
                        ActivatorNotice::ShowMidiThrough
                    }
                },
                _ => {
                    &&& final(self).controls() == old(self).controls()
                    &&& final(self).key_change_spec() == old(self).key_change_spec()
                    &&& final(self).active_spec() == old(self).active_spec()
                    &&& r == ActivatorNotice::Nothing
                },
            },
    {
        if let MidiInput::Controller { control, value, .. } = event {
            if self.key_change {
                self.keyboard.update_key(KeyBoardKey::Record, control);
                self.key_change = false;
            }
            if self.keyboard.get_keyboard_key(control) == Some(KeyBoardKey::Record) && value > 0 {
                if self.active {
                    self.active = false;
                    return ActivatorNotice::ShowMidiBlocked;
                } else {
                    self.active = true;
                    return ActivatorNotice::ShowMidiThrough;
                }
            }
        }
        ActivatorNotice::Nothing
    }
}

} // verus!
