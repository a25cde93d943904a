//! Keyboard keys and what the keyboard hook reports of them.

use vstd::prelude::*;

verus! {

/// Virtual-key code of the Enter key.
pub const VK_RETURN: u32 = 0x0D;

/// Virtual-key code of the space bar.
pub const VK_SPACE: u32 = 0x20;

/// Virtual-key code of the letter key F.
pub const VK_F: u32 = 0x46;

/// A key of the keyboard, named by the platform's virtual-key code.
#[derive(Clone, Copy, Debug, PartialEq, Eq, Structural)]
pub struct KeyCode {
    pub code: u32,
}

impl KeyCode {
    /// The key that types `c`, for the keys whose virtual-key code is the
    /// character they are labelled with: the letters, in either case, and the
    /// digits.
    pub open spec fn spec_from_char(c: char) -> Option<KeyCode> {
        if 'a' <= c <= 'z' {
            Some(KeyCode { code: (c as u32 - 0x20) as u32 })
        } else if 'A' <= c <= 'Z' || '0' <= c <= '9' {
            Some(KeyCode { code: c as u32 })
        } else {
            None
        }
    }

    /// Finds the key that types `c`. Letters and digits have one; for any
    /// other character the answer is `None`.
    pub fn from_char(c: char) -> (key: Option<KeyCode>)
        ensures
            key == Self::spec_from_char(c),
            key matches Some(k) ==> 0x30 <= k.code <= 0x39 || 0x41 <= k.code <= 0x5A,
    {
        let n: u32 = c as u32;
        if 0x61 <= n && n <= 0x7A {
            Some(KeyCode { code: n - 0x20 })
        } else if (0x41 <= n && n <= 0x5A) || (0x30 <= n && n <= 0x39) {
            Some(KeyCode { code: n })
        } else {
            None
        }
    }
}

/// One event of the system-wide keyboard hook.
#[derive(Clone, Copy, Debug, PartialEq, Eq, Structural)]
pub enum KeyEvent {
    /// The key went down.
    Press(KeyCode),
    /// The key came up.
    Release(KeyCode),
}

} // verus!
