use vstd::prelude::*;
use crate::error::ObsCmdError;
use crate::request::BlendMode;

verus! {

/// Whether two strings hold the same characters.
pub fn same_text(a: &str, b: &str) -> (r: bool)
    ensures
        r == (a@ == b@),
{
    let n = a.unicode_len();
    if n != b.unicode_len() {
        return false;
    }
    let mut i: usize = 0;
    while i < n
        invariant
            n == a@.len(),
            n == b@.len(),
            i <= n,
            a@.take(i as int) == b@.take(i as int),
        decreases n - i,
    {
        if a.get_char(i) != b.get_char(i) {
            assert(a@[i as int] != b@[i as int]);
            return false;
        }
        assert(a@.take(i as int + 1) =~= a@.take(i as int).push(a@[i as int]));
        assert(b@.take(i as int + 1) =~= b@.take(i as int).push(b@[i as int]));
        i = i + 1;
    }
    assert(a@ =~= a@.take(n as int));
    assert(b@ =~= b@.take(n as int));
    true
}

/// What `str::to_lowercase` makes of a string.
pub uninterp spec fn lowercase_of(s: Seq<char>) -> Seq<char>;

/// Relies on `str::to_lowercase`: the Unicode lowercase mapping of each
/// character, which depends on the characters alone.
#[verifier::external_body]
fn to_lowercase(s: &str) -> (r: String)
    ensures
        r@ == lowercase_of(s@),
{
    s.to_lowercase()
}

/// The blend mode that an already lowercased name stands for.
pub open spec fn blend_mode_named(name: Seq<char>) -> Option<BlendMode> {
    if name == "normal"@ {
        Some(BlendMode::Normal)
    } else if name == "additive"@ {
        Some(BlendMode::Additive)
    } else if name == "subtract"@ {
        Some(BlendMode::Subtract)
    } else if name == "screen"@ {
        Some(BlendMode::Screen)
    } else if name == "multiply"@ {
        Some(BlendMode::Multiply)
    } else if name == "lighten"@ {
        Some(BlendMode::Lighten)
    } else if name == "darken"@ {
        Some(BlendMode::Darken)
    } else {
        None
    }
}

/// Reads a lowercased blend mode name.
pub fn blend_mode_from_lowercase(name: &str) -> (r: Option<BlendMode>)
    ensures
        r == blend_mode_named(name@),
{
    if same_text(name, "normal") {
        Some(BlendMode::Normal)
    } else if same_text(name, "additive") {
        Some(BlendMode::Additive)
    } else if same_text(name, "subtract") {
        Some(BlendMode::Subtract)
    } else if same_text(name, "screen") {
        Some(BlendMode::Screen)
    } else if same_text(name, "multiply") {
        Some(BlendMode::Multiply)
    } else if same_text(name, "lighten") {
        Some(BlendMode::Lighten)
    } else if same_text(name, "darken") {
        Some(BlendMode::Darken)
    } else {
        None
    }
}

/// Reads a blend mode name, in any case: `"Screen"` and `"SCREEN"` are both
/// the screen mode. Any other name is an unsupported literal.
pub fn parse_blend_mode(blend_mode: &str) -> (r: Result<BlendMode, ObsCmdError>)
    ensures
        match r {
            Ok(m) => blend_mode_named(lowercase_of(blend_mode@)) == Some(m),
            Err(e) => {
                &&& blend_mode_named(lowercase_of(blend_mode@)) is None
                &&& e matches ObsCmdError::InvalidBlendMode { blend_mode: b }
                &&& b@ == blend_mode@
            },
        },
{
    let lowered = to_lowercase(blend_mode);
    match blend_mode_from_lowercase(lowered.as_str()) {
        Some(m) => Ok(m),
        None => Err(ObsCmdError::InvalidBlendMode { blend_mode: String::from_str(blend_mode) }),
    }
}

} // verus!
