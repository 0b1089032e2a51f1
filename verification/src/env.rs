//! What the workflow environment variables mean.
//!
//! See https://www.alfredapp.com/help/workflows/script-environment-variables/
//! for more info.
//!
//! Alfred hands a workflow its settings in environment variables.  The
//! functions here take the value of a variable, `None` where the variable is
//! not set, and say what it means; reading the variables is left to the caller.

use vstd::prelude::*;
use crate::text::{chars_of, str_eq};

verus! {

/// The variable that holds the location of the Alfred.alfredpreferences.
pub const PREFERENCES: &'static str = "alfred_preferences";

/// The variable that holds the hash of the local preferences.
pub const PREFERENCES_LOCALHASH: &'static str = "alfred_preferences_localhash";

/// The variable that holds the subtext mode.
pub const THEME_SUBTEXT: &'static str = "alfred_theme_subtext";

/// The variable that holds the build of Alfred.
pub const VERSION_BUILD: &'static str = "alfred_version_build";

/// The variable that says whether the debug panel is open.
pub const DEBUG: &'static str = "alfred_debug";

/// The variable that holds the recommended location for volatile workflow data.
pub const WORKFLOW_CACHE: &'static str = "alfred_workflow_cache";

/// The variable that holds the recommended location for non-volatile workflow data.
pub const WORKFLOW_DATA: &'static str = "alfred_workflow_data";

/// The variable that holds the name of the currently running workflow.
pub const WORKFLOW_NAME: &'static str = "alfred_workflow_name";

/// The variable that holds the unique ID of the currently running workflow.
pub const WORKFLOW_UID: &'static str = "alfred_workflow_uid";

/// The variable that holds the version of the currently running workflow.
pub const WORKFLOW_VERSION: &'static str = "alfred_workflow_version";

/// The subtext mode in the Appearance preferences.
#[derive(Copy, Clone, Debug, PartialEq, Eq, Hash, Structural)]
pub enum Subtext {
    /// Always show subtext.
    Always,
    /// Only show subtext for alternative actions.
    AlternativeActions,
    /// Only show subtext for the selected result.
    SelectedResult,
    /// Never show subtext.
    Never,
}

/// The subtext mode that a value of the variable stands for.
pub open spec fn subtext_of(value: Option<Seq<char>>) -> Option<Subtext> {
    match value {
        None => None,
        Some(s) => if s == "0"@ {
            Some(Subtext::Always)
        } else if s == "1"@ {
            Some(Subtext::AlternativeActions)
        } else if s == "2"@ {
            Some(Subtext::SelectedResult)
        } else if s == "3"@ {
            Some(Subtext::Never)
        } else {
            None
        },
    }
}

/// Returns the subtext mode the user has selected in the Appearance preferences.
pub fn theme_subtext(value: Option<&str>) -> (r: Option<Subtext>)
    ensures
        r == subtext_of(crate::str_view(value)),
{
    match value {
        None => None,
        Some(s) => {
            if str_eq(s, "0") {
                Some(Subtext::Always)
            } else if str_eq(s, "1") {
                Some(Subtext::AlternativeActions)
            } else if str_eq(s, "2") {
                Some(Subtext::SelectedResult)
            } else if str_eq(s, "3") {
                Some(Subtext::Never)
            } else {
                None
            }
        },
    }
}

/// Returns `true` if the user has the debug panel open for the workflow.
pub fn is_debug(value: Option<&str>) -> (r: bool)
    ensures
        r == (crate::str_view(value) == Some("1"@)),
{
    match value {
        Some(val) => str_eq(val, "1"),
        None => false,
    }
}

/// The parts of the location of the local preferences.
pub open spec fn local_parts(preferences: Seq<char>, hash: Seq<char>) -> Seq<Seq<char>> {
    seq![preferences, "preferences"@, "local"@, hash]
}

/// Returns the location of local (Mac-specific) preferences, as the parts of
/// its path: the location of the preferences, then `preferences`, `local` and
/// the hash.
///
/// Example output: `["/Users/Crayons/Dropbox/Alfred/Alfred.alfredpreferences", "preferences", "local", "adbd4f66bc3ae8493832af61a41ee609b20d8705"]`
pub fn local_preferences(preferences: Option<&str>, hash: Option<&str>) -> (r: Option<Vec<String>>)
    ensures
        match r {
            Some(parts) => preferences is Some && hash is Some && parts@.len() == 4 && parts@.map_values(
                |s: String| s@,
            ) == local_parts(preferences->0@, hash->0@),
            None => preferences is None || hash is None,
        },
{
    match preferences {
        Some(prefs) => match hash {
            Some(h) => {
                let mut parts: Vec<String> = Vec::new();
                parts.push(prefs.to_owned());
                parts.push("preferences".to_owned());
                parts.push("local".to_owned());
                parts.push(h.to_owned());
                assert(parts@.map_values(|s: String| s@) =~= local_parts(prefs@, h@));
                Some(parts)
            },
            None => None,
        },
        None => None,
    }
}

/// The value of a decimal digit.
pub open spec fn digit_value(c: char) -> Option<int> {
    if '0' <= c && c <= '9' {
        Some((c as u32) - ('0' as u32))
    } else {
        None
    }
}

/// The number that decimal digits stand for; `None` where a character is no
/// digit.
pub open spec fn digits_value(s: Seq<char>) -> Option<int>
    decreases s.len(),
{
    if s.len() == 0 {
        Some(0)
    } else {
        match digits_value(s.drop_last()) {
            Some(head) => match digit_value(s.last()) {
                Some(d) => Some(head * 10 + d),
                None => None,
            },
            None => None,
        }
    }
}

/// The number that a text stands for: an optional sign, `+` or `-`, and at
/// least one decimal digit, nothing else.
pub open spec fn signed_value(s: Seq<char>) -> Option<int> {
    if s.len() > 0 && s[0] == '-' {
        if s.len() > 1 {
            match digits_value(s.drop_first()) {
                Some(v) => Some(-v),
                None => None,
            }
        } else {
            None
        }
    } else if s.len() > 0 && s[0] == '+' {
        if s.len() > 1 {
            digits_value(s.drop_first())
        } else {
            None
        }
    } else if s.len() > 0 {
        digits_value(s)
    } else {
        None
    }
}

/// The build that a value of the variable stands for: its number, where the
/// value is a number that an `i32` holds.
pub open spec fn build_of(value: Option<Seq<char>>) -> Option<i32> {
    match value {
        None => None,
        Some(s) => match signed_value(s) {
            Some(v) => if i32::MIN <= v <= i32::MAX {
                Some(v as i32)
            } else {
                None
            },
            None => None,
        },
    }
}

/// The number with the other sign, where there is a number.
pub open spec fn negated(v: Option<int>) -> Option<int> {
    match v {
        Some(x) => Some(-x),
        None => None,
    }
}

/// The digits at the beginning of a text of digits stand for a number that is
/// no greater than the number of the whole text.
pub proof fn lemma_digits_grow(s: Seq<char>, k: int)
    requires
        0 <= k <= s.len(),
        digits_value(s) is Some,
    ensures
        digits_value(s.take(k)) is Some,
        0 <= digits_value(s.take(k))->0 <= digits_value(s)->0,
    decreases s.len(),
{
    if k == s.len() {
        assert(s.take(k) =~= s);
        if s.len() > 0 {
            lemma_digits_grow(s.drop_last(), 0);
        } else {
            assert(s.take(0) =~= s);
        }
    } else {
        lemma_digits_grow(s.drop_last(), k);
        assert(s.drop_last().take(k) =~= s.take(k));
    }
}

/// The number that a text stands for in decimal digits after an optional
/// sign, where it is one that an `i32` holds.
fn parse_i32(s: &str) -> (r: Option<i32>)
    ensures
        r == build_of(Some(s@)),
{
    let chars = chars_of(s);
    let n = chars.len();
    if n == 0 {
        return None;
    }
    let negative = chars[0] == '-';
    let start: usize = if chars[0] == '-' || chars[0] == '+' {
        1
    } else {
        0
    };
    if start == n {
        return None;
    }
    let ghost digits = chars@.subrange(start as int, n as int);
    proof {
        if start == 1 {
            assert(digits =~= chars@.drop_first());
        } else {
            assert(digits =~= chars@);
        }
        assert(digits.take(0) =~= Seq::<char>::empty());
    }
    let mut acc: i64 = 0;
    let mut i: usize = start;
    while i < n
        invariant
            start <= i <= n,
            n == chars@.len(),
            chars@ == s@,
            digits == chars@.subrange(start as int, n as int),
            signed_value(s@) == if negative {
                negated(digits_value(digits))
            } else {
                digits_value(digits)
            },
            digits_value(digits.take(i - start)) == Some(acc as int),
            0 <= acc <= 2147483648,
        decreases n - i,
    {
        let c = chars[i];
        proof {
            assert(digits.take(i - start + 1).drop_last() =~= digits.take(i - start));
            assert(digits.take(i - start + 1).last() == c);
        }
        if !('0' <= c && c <= '9') {
            proof {
                if digits_value(digits) is Some {
                    lemma_digits_grow(digits, i - start + 1);
                }
            }
            return None;
        }
        let d: i64 = ((c as u32) - ('0' as u32)) as i64;
        let next: i64 = acc * 10 + d;
        if next > 2147483648 {
            proof {
                if digits_value(digits) is Some {
                    lemma_digits_grow(digits, i - start + 1);
                }
            }
            return None;
        }
        acc = next;
        i = i + 1;
    }
    proof {
        assert(digits.take(n - start) =~= digits);
    }
    if negative {
        Some((-acc) as i32)
    } else if acc > 2147483647 {
        None
    } else {
        Some(acc as i32)
    }
}

/// Returns the build of Alfred.
///
/// Example output: `768`
pub fn version_build(value: Option<&str>) -> (r: Option<i32>)
    ensures
        r == build_of(crate::str_view(value)),
{
    match value {
        Some(s) => parse_i32(s),
        None => None,
    }
}

} // verus!
