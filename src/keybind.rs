//! The watched keycode, read from an optional decimal setting.

use vstd::prelude::*;
use vstd::string::StrSliceExecFns;

verus! {

/// The keycode watched when no keybind is configured.
pub const DEFAULT_KEY: u32 = 68;

/// The ways in which watching the key can fail. Each one is fatal.
#[derive(Debug, Clone, Copy, PartialEq, Eq, Structural)]
pub enum ControllerError {
    /// The keybind setting is not a decimal `u32`.
    Config,
    /// No session could be attached to the seat.
    DeviceConnection,
    /// Waiting on the device failed for another reason than an interruption.
    Poll,
    /// Reading pending events from the device failed.
    Dispatch,
    /// The shared pause flag could not be locked.
    PauseState,
    /// The receiver of mute signals is gone.
    SignalSend,
}

pub open spec fn is_digit(c: char) -> bool {
    '0' <= c && c <= '9'
}

pub open spec fn all_digits(s: Seq<char>) -> bool {
    forall|i: int| 0 <= i < s.len() ==> is_digit(#[trigger] s[i])
}

/// The number that a string of decimal digits denotes.
pub open spec fn digits_value(s: Seq<char>) -> nat
    decreases s.len(),
{
    if s.len() == 0 {
        0
    } else {
        digits_value(s.drop_last()) * 10 + (s.last() as nat - '0' as nat) as nat
    }
}

/// The digits of a setting, without the one `+` sign it may start with.
pub open spec fn unsigned_part(s: Seq<char>) -> Seq<char> {
    if s.len() > 0 && s[0] == '+' {
        s.drop_first()
    } else {
        s
    }
}

/// The `u32` that a setting spells in decimal, if it spells one: an optional
/// `+`, then one digit or more, with a value that fits in 32 bits.
pub open spec fn decimal_u32(s: Seq<char>) -> Option<u32> {
    let d = unsigned_part(s);
    if d.len() > 0 && all_digits(d) && digits_value(d) <= u32::MAX {
        Some(digits_value(d) as u32)
    } else {
        None
    }
}

/// The keycode that a keybind setting selects: the default when it is unset.
pub open spec fn configured_key(setting: Option<Seq<char>>) -> Option<u32> {
    match setting {
        None => Some(DEFAULT_KEY),
        Some(s) => decimal_u32(s),
    }
}

proof fn lemma_prefix_value_bounded(s: Seq<char>, k: int)
    requires
        0 <= k <= s.len(),
        all_digits(s),
    ensures
        digits_value(s.take(k)) <= digits_value(s),
    decreases s.len(),
{
    if k < s.len() {
        let t = s.drop_last();
        assert(all_digits(t)) by {
            assert forall|i: int| 0 <= i < t.len() implies is_digit(#[trigger] t[i]) by {
                assert(t[i] == s[i]);
            }
        }
        lemma_prefix_value_bounded(t, k);
        assert(t.take(k) =~= s.take(k));
    } else {
        assert(s.take(k) =~= s);
    }
}

/// The characters of a setting, when it is set.
pub open spec fn setting_chars(setting: Option<&str>) -> Option<Seq<char>> {
    match setting {
        Some(s) => Some(s@),
        None => None,
    }
}

/// Reads the watched keycode from the keybind setting; `None` means unset and
/// selects the default keycode.
pub fn parse_keybind(setting: Option<&str>) -> (r: Result<u32, ControllerError>)
    ensures
        match configured_key(setting_chars(setting)) {
            Some(k) => r == Ok::<u32, ControllerError>(k),
            None => r == Err::<u32, ControllerError>(ControllerError::Config),
        },
{
    let s = match setting {
        None => {
            return Ok(DEFAULT_KEY);
        },
        Some(s) => s,
    };
    let len = s.unicode_len();
    let start: usize = if len > 0 && s.get_char(0) == '+' {
        1
    } else {
        0
    };
    let ghost d = unsigned_part(s@);
    assert(d =~= s@.subrange(start as int, len as int));
    if start == len {
        return Err(ControllerError::Config);
    }
    let mut value: u64 = 0;
    let mut i: usize = start;
    while i < len
        invariant
            start <= i <= len,
            len == s@.len(),
            d == s@.subrange(start as int, len as int),
            d == unsigned_part(s@),
            setting == Some(s),
            all_digits(d.take(i - start)),
            value == digits_value(d.take(i - start)),
            value <= u32::MAX,
        decreases len - i,
    {
        let c = s.get_char(i);
        let ghost before = d.take(i - start);
        let ghost after = d.take(i + 1 - start);
        assert(after.drop_last() =~= before);
        assert(after.last() == c);
        if c < '0' || c > '9' {
            assert(!all_digits(d)) by {
                assert(d[i - start] == c);
            }
            assert(decimal_u32(s@) is None);
            return Err(ControllerError::Config);
        }
        let digit = (c as u32 - '0' as u32) as u64;
        value = value * 10 + digit;
        assert(digits_value(after) == value);
        assert(all_digits(after)) by {
            assert forall|j: int| 0 <= j < after.len() implies is_digit(#[trigger] after[j]) by {
                if j < after.len() - 1 {
                    assert(after[j] == before[j]);
                }
            }
        }
        if value > u32::MAX as u64 {
            proof {
                if all_digits(d) {
                    lemma_prefix_value_bounded(d, i + 1 - start);
                }
            }
            assert(decimal_u32(s@) is None);
            return Err(ControllerError::Config);
        }
        i = i + 1;
    }
    assert(d.take(len - start) =~= d);
    Ok(value as u32)
}

} // verus!
