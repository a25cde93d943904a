//! The user's settings, as the settings window edits them.

use vstd::prelude::*;
use vstd::string::StrSliceExecFns;
use crate::keys::KeyCode;
use crate::remap::RemapFlags;

verus! {

/// Settings of the key remap.
#[derive(Clone, Debug)]
pub struct MapStoryKey {
    /// Whether the F key is a trigger.
    pub f_enabled: bool,
    /// Whether the Enter key is a trigger.
    pub enter_enabled: bool,
    /// Whether the key named in `custom_key` is a trigger.
    pub custom_key_enabled: bool,
    /// The text of the custom key box: the one character that the key types.
    pub custom_key: Option<String>,
}

impl MapStoryKey {
    /// The custom trigger key: the key that types the one character of the
    /// custom key box, while the custom key is switched on and the box holds
    /// exactly one character that names a key.
    pub open spec fn spec_custom_trigger_key(&self) -> Option<KeyCode> {
        if self.custom_key_enabled && self.custom_key is Some && self.custom_key->0@.len() == 1 {
            KeyCode::spec_from_char(self.custom_key->0@[0])
        } else {
            None
        }
    }

    /// The flags that these settings stand for.
    pub open spec fn spec_remap_flags(&self) -> RemapFlags {
        RemapFlags {
            f_enabled: self.f_enabled,
            enter_enabled: self.enter_enabled,
            custom_trigger_key: self.spec_custom_trigger_key(),
        }
    }

    /// Works out the custom trigger key. There is none while the custom key
    /// is switched off, and none while the box is empty, holds more than one
    /// character, or holds a character that is neither a letter nor a digit.
    #[verifier::when_used_as_spec(spec_custom_trigger_key)]
    pub fn custom_trigger_key(&self) -> (key: Option<KeyCode>)
        ensures
            key == self.spec_custom_trigger_key(),
            !self.custom_key_enabled ==> key is None,
    {
        if !self.custom_key_enabled {
            return None;
        }
        match &self.custom_key {
            Some(text) => {
                let text = text.as_str();
                if text.unicode_len() == 1 {
                    KeyCode::from_char(text.get_char(0))
                } else {
                    None
                }
            },
            None => None,
        }
    }

    /// Turns the settings into the flags that the keyboard hook reads.
    #[verifier::when_used_as_spec(spec_remap_flags)]
    pub fn remap_flags(&self) -> (flags: RemapFlags)
        ensures
            flags == self.spec_remap_flags(),
    {
        RemapFlags {
            f_enabled: self.f_enabled,
            enter_enabled: self.enter_enabled,
            custom_trigger_key: self.custom_trigger_key(),
        }
    }
}

impl Default for MapStoryKey {
    /// Every trigger switched off and no custom key.
    fn default() -> (settings: MapStoryKey)
        ensures
            !settings.f_enabled,
            !settings.enter_enabled,
            !settings.custom_key_enabled,
            settings.custom_key is None,
    {
        MapStoryKey {
            f_enabled: false,
            enter_enabled: false,
            custom_key_enabled: false,
            custom_key: None,
        }
    }
}

/// Settings of the utilities.
#[derive(Clone, Debug)]
pub struct Utils {
    /// The key remap.
    pub msk: MapStoryKey,
}

impl Default for Utils {
    fn default() -> (utils: Utils)
        ensures
            !utils.msk.f_enabled,
            !utils.msk.enter_enabled,
            !utils.msk.custom_key_enabled,
            utils.msk.custom_key is None,
    {
        Utils { msk: MapStoryKey::default() }
    }
}

/// All settings.
#[derive(Clone, Debug)]
pub struct Settings {
    /// The utilities.
    pub utils: Utils,
}

impl Default for Settings {
    fn default() -> (settings: Settings)
        ensures
            !settings.utils.msk.f_enabled,
            !settings.utils.msk.enter_enabled,
            !settings.utils.msk.custom_key_enabled,
            settings.utils.msk.custom_key is None,
    {
        Settings { utils: Utils::default() }
    }
}

} // verus!
