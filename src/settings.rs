use vstd::prelude::*;

verus! {

/// Abstract state of the settings: the selected notification sound for each
/// phase boundary, as an index into the list of sound names.
pub struct SettingsModel {
    pub end_of_focus_sound: nat,
    pub end_of_relax_sound: nat,
    pub sound_names: Seq<Seq<char>>,
}

impl SettingsModel {
    /// Both selections name an entry of the list.
    pub open spec fn wf(self) -> bool {
        &&& self.end_of_focus_sound < self.sound_names.len()
        &&& self.end_of_relax_sound < self.sound_names.len()
    }

    /// The settings after `message`: a selection that names no entry of the
    /// list is ignored.
    pub open spec fn update(self, message: SettingMessage) -> SettingsModel {
        match message {
            SettingMessage::EndOfFocusSoundChanged(i) => if i < self.sound_names.len() {
                SettingsModel { end_of_focus_sound: i as nat, ..self }
            } else {
                self
            },
            SettingMessage::EndOfRelaxSoundChanged(i) => if i < self.sound_names.len() {
                SettingsModel { end_of_relax_sound: i as nat, ..self }
            } else {
                self
            },
        }
    }
}

/// A change of one sound selection.
#[derive(Clone, Copy, Debug, PartialEq, Eq, Structural)]
pub enum SettingMessage {
    EndOfFocusSoundChanged(usize),
    EndOfRelaxSoundChanged(usize),
}

/// Which sound to play at the end of each phase, chosen from a fixed list of
/// sound names.
pub struct Settings {
    end_of_focus_sound: usize,
    end_of_relax_sound: usize,
    sound_names: Vec<String>,
}

impl View for Settings {
    type V = SettingsModel;

    closed spec fn view(&self) -> SettingsModel {
        SettingsModel {
            end_of_focus_sound: self.end_of_focus_sound as nat,
            end_of_relax_sound: self.end_of_relax_sound as nat,
            sound_names: self.sound_names@.map_values(|s: String| s@),
        }
    }
}

impl Settings {
    /// Settings over the given sound names, with the first one selected for
    /// both phase boundaries.
    pub fn new(sound_names: Vec<String>) -> (r: Settings)
        requires
            sound_names@.len() > 0,
        ensures
            r@.wf(),
            r@.end_of_focus_sound == 0,
            r@.end_of_relax_sound == 0,
            r@.sound_names == sound_names@.map_values(|s: String| s@),
    {
        Settings { end_of_focus_sound: 0, end_of_relax_sound: 0, sound_names }
    }

    /// The name of the sound selected for the end of a focus period.
    pub fn get_end_of_focus_sound(&self) -> (r: &str)
        requires
            self@.wf(),
        ensures
            r@ == self@.sound_names[self@.end_of_focus_sound as int],
    {
        self.sound_names[self.end_of_focus_sound].as_str()
    }

    /// The name of the sound selected for the end of a relax period.
    pub fn get_end_of_relax_sound(&self) -> (r: &str)
        requires
            self@.wf(),
        ensures
            r@ == self@.sound_names[self@.end_of_relax_sound as int],
    {
        self.sound_names[self.end_of_relax_sound].as_str()
    }

    /// Applies one change of selection.
    pub fn update(&mut self, message: SettingMessage)
        requires
            old(self)@.wf(),
        ensures
            final(self)@ == old(self)@.update(message),
            final(self)@.wf(),
    {
        match message {
            SettingMessage::EndOfFocusSoundChanged(index) => {
                if index < self.sound_names.len() {
                    self.end_of_focus_sound = index;
                }
            },
            SettingMessage::EndOfRelaxSoundChanged(index) => {
                if index < self.sound_names.len() {
                    self.end_of_relax_sound = index;
                }
            },
        }
    }
}

} // verus!
